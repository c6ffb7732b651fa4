//! Buffs: what they carry, which of them harm, and the flags that they set on a player.

use crate::arith::{clamp_i32, clamp_to, max_of, min_of, or_i32, tdiv};
use crate::constants::{
    ABNORMAL_DWARF, ABNORMAL_GIANT, ABNORMAL_GIANT_TARGET, ABNORMAL_NORMAL, ABNORMAL_SPECIAL,
    LEFTHAND, RIGHTHAND, STATE_CHANGE_ABNORMAL, STATE_CHANGE_WEAPONS_DISABLED, WEAPON_SHIELD,
    WIZ_STATE_CHANGE, WIZ_USERLOOK_CHANGE,
};
use crate::notices::{build_hidden_slot, build_state_change, state_change_payload};
use crate::packet::{u16_bytes, u32_bytes, Packet};
use crate::random::roll;
use crate::tables::{BuffKind, MagicType4Row};
use vstd::prelude::*;

verus! {

/// A buff on a player.
#[derive(Clone, Copy, Debug, PartialEq, Eq, Structural)]
pub struct ActiveBuff {
    pub skill_id: u32,
    pub buff_type: i32,
    pub caster_sid: u16,
    /// When the buff began, in milliseconds.
    pub start_time: u64,
    pub duration_secs: u32,
    pub attack_speed: i32,
    pub speed: i32,
    pub ac: i32,
    pub ac_pct: i32,
    pub attack: i32,
    pub magic_attack: i32,
    pub max_hp: i32,
    pub max_hp_pct: i32,
    pub max_mp: i32,
    pub max_mp_pct: i32,
    pub str_mod: i32,
    pub sta_mod: i32,
    pub dex_mod: i32,
    pub intel_mod: i32,
    pub cha_mod: i32,
    pub fire_r: i32,
    pub cold_r: i32,
    pub lightning_r: i32,
    pub magic_r: i32,
    pub disease_r: i32,
    pub poison_r: i32,
    pub hit_rate: i32,
    pub avoid_rate: i32,
    pub weapon_damage: i32,
    pub ac_sour: i32,
    pub duration_extended: bool,
    pub is_buff: bool,
}

/// The buff that a row gives. Empty columns count as 0, and so does a negative duration.
pub open spec fn buff_of_row(
    skill_id: u32,
    caster_sid: u16,
    row: MagicType4Row,
    is_buff: bool,
    now: u64,
) -> ActiveBuff {
    ActiveBuff {
        skill_id,
        buff_type: or_i32(row.buff_type, 0),
        caster_sid,
        start_time: now,
        duration_secs: max_of(or_i32(row.duration, 0) as int, 0) as u32,
        attack_speed: or_i32(row.attack_speed, 0),
        speed: or_i32(row.speed, 0),
        ac: or_i32(row.ac, 0),
        ac_pct: or_i32(row.ac_pct, 0),
        attack: or_i32(row.attack, 0),
        magic_attack: or_i32(row.magic_attack, 0),
        max_hp: or_i32(row.max_hp, 0),
        max_hp_pct: or_i32(row.max_hp_pct, 0),
        max_mp: or_i32(row.max_mp, 0),
        max_mp_pct: or_i32(row.max_mp_pct, 0),
        str_mod: or_i32(row.str, 0),
        sta_mod: or_i32(row.sta, 0),
        dex_mod: or_i32(row.dex, 0),
        intel_mod: or_i32(row.intel, 0),
        cha_mod: or_i32(row.cha, 0),
        fire_r: or_i32(row.fire_r, 0),
        cold_r: or_i32(row.cold_r, 0),
        lightning_r: or_i32(row.lightning_r, 0),
        magic_r: or_i32(row.magic_r, 0),
        disease_r: or_i32(row.disease_r, 0),
        poison_r: or_i32(row.poison_r, 0),
        hit_rate: or_i32(row.hit_rate, 0),
        avoid_rate: or_i32(row.avoid_rate, 0),
        weapon_damage: 0,
        ac_sour: 0,
        duration_extended: false,
        is_buff,
    }
}

/// Create a buff from its row.
pub fn create_active_buff(
    skill_id: u32,
    caster_sid: u16,
    row: &MagicType4Row,
    is_buff: bool,
    now: u64,
) -> (r: ActiveBuff)
    ensures
        r == buff_of_row(skill_id, caster_sid, *row, is_buff, now),
{
    ActiveBuff {
        skill_id,
        buff_type: row.buff_type.unwrap_or(0),
        caster_sid,
        start_time: now,
        duration_secs: row.duration.unwrap_or(0).max(0) as u32,
        attack_speed: row.attack_speed.unwrap_or(0),
        speed: row.speed.unwrap_or(0),
        ac: row.ac.unwrap_or(0),
        ac_pct: row.ac_pct.unwrap_or(0),
        attack: row.attack.unwrap_or(0),
        magic_attack: row.magic_attack.unwrap_or(0),
        max_hp: row.max_hp.unwrap_or(0),
        max_hp_pct: row.max_hp_pct.unwrap_or(0),
        max_mp: row.max_mp.unwrap_or(0),
        max_mp_pct: row.max_mp_pct.unwrap_or(0),
        str_mod: row.str.unwrap_or(0),
        sta_mod: row.sta.unwrap_or(0),
        dex_mod: row.dex.unwrap_or(0),
        intel_mod: row.intel.unwrap_or(0),
        cha_mod: row.cha.unwrap_or(0),
        fire_r: row.fire_r.unwrap_or(0),
        cold_r: row.cold_r.unwrap_or(0),
        lightning_r: row.lightning_r.unwrap_or(0),
        magic_r: row.magic_r.unwrap_or(0),
        disease_r: row.disease_r.unwrap_or(0),
        poison_r: row.poison_r.unwrap_or(0),
        hit_rate: row.hit_rate.unwrap_or(0),
        avoid_rate: row.avoid_rate.unwrap_or(0),
        weapon_damage: 0,
        ac_sour: 0,
        duration_extended: false,
        is_buff,
    }
}

/// Whether a buff harms. Many types go either way, by what they change.
pub open spec fn debuff(b: ActiveBuff) -> bool {
    let t = b.buff_type;
    if t == 1 {
        b.max_hp < 0
    } else if t == 2 {
        b.ac < 0 && b.ac_pct < 100
    } else if t == 4 {
        b.attack < 100
    } else if t == 5 {
        b.attack_speed < 100
    } else if t == 6 {
        b.speed < 100
    } else if t == 7 {
        b.str_mod < 0 || b.sta_mod < 0 || b.dex_mod < 0 || b.intel_mod < 0 || b.cha_mod < 0
    } else if t == 9 {
        b.hit_rate < 100 || b.avoid_rate < 100
    } else if t == 10 {
        b.magic_attack < 100
    } else if t == 46 {
        b.speed < 100 || b.attack_speed < 100
    } else {
        t == 3 || t == 20 || t == 21 || t == 40 || t == 43 || t == 44 || t == 45 || t == 47
    }
}

/// Whether a buff harms.
pub fn is_debuff(buff: &ActiveBuff) -> (r: bool)
    ensures
        r == debuff(*buff),
{
    match buff.buff_type {
        1 => buff.max_hp < 0,
        2 => buff.ac < 0 && buff.ac_pct < 100,
        3 => true,
        4 => buff.attack < 100,
        5 => buff.attack_speed < 100,
        6 => buff.speed < 100,
        7 => buff.str_mod < 0 || buff.sta_mod < 0 || buff.dex_mod < 0 || buff.intel_mod < 0
            || buff.cha_mod < 0,
        8 => false,
        9 => buff.hit_rate < 100 || buff.avoid_rate < 100,
        10 => buff.magic_attack < 100,
        11 | 13 | 15 => false,
        20 | 21 => true,
        25 => false,
        40 => true,
        41 | 42 => false,
        43 | 44 | 45 => true,
        46 => buff.speed < 100 || buff.attack_speed < 100,
        47 => true,
        _ => false,
    }
}

/// Buff types whose meaning is known.
pub open spec fn known_buff_type(t: i32) -> bool {
    1 <= t <= 11 || t == 15 || t == 20 || t == 21 || t == 25 || 40 <= t <= 47
}

/// Whether a buff type is one of the known ones; see [`is_debuff`] for whether it harms.
pub fn is_debuff_type(buff_type: i32) -> (r: bool)
    ensures
        r == known_buff_type(buff_type),
{
    matches!(
        buff_type,
        1 | 2 | 3 | 4 | 5 | 6 | 7 | 8 | 9 | 10 | 11
        | 15 | 20 | 21 | 25
        | 40 | 41 | 42 | 43 | 44 | 45 | 46 | 47
    )
}

/// What a player is or may do by their buffs.
#[derive(Clone, Copy, Debug, PartialEq, Eq, Structural)]
pub struct BuffStates {
    pub can_use_skills: bool,
    pub can_use_potions: bool,
    pub can_teleport: bool,
    pub can_stealth: bool,
    pub is_kaul: bool,
    pub is_undead: bool,
    pub is_devil: bool,
    pub is_blinded: bool,
    pub block_magic: bool,
    pub block_physical: bool,
    pub block_curses: bool,
    pub reflect_curses: bool,
    pub instant_cast: bool,
    pub is_premium_merchant: bool,
    pub weapons_disabled: bool,
}

/// How a player looks by their buffs.
#[derive(Clone, Copy, Debug, PartialEq, Eq, Structural)]
pub struct BuffLooks {
    pub old_abnormal_type: u32,
    pub transform_skill_id: u32,
    pub size_effect: u32,
}

/// Percentages of a player's resistances that count.
#[derive(Clone, Copy, Debug, PartialEq, Eq, Structural)]
pub struct BuffResists {
    pub pct_fire_r: u8,
    pub pct_cold_r: u8,
    pub pct_lightning_r: u8,
    pub pct_magic_r: u8,
    pub pct_disease_r: u8,
    pub pct_poison_r: u8,
}

/// What protects a player by their buffs.
#[derive(Clone, Copy, Debug, PartialEq, Eq, Structural)]
pub struct BuffGuards {
    pub reflect_armor_type: u8,
    pub mirror_damage: bool,
    pub mirror_damage_type: bool,
    pub mirror_amount: u8,
    pub dagger_r_amount: u8,
    pub bow_r_amount: u8,
    pub magic_damage_reduction: u8,
    pub mana_absorb: u8,
    pub absorb_count: u8,
}

/// What a player gains by their buffs.
#[derive(Clone, Copy, Debug, PartialEq, Eq, Structural)]
pub struct BuffGains {
    pub drop_scroll_amount: i16,
    pub jackpot_type: u8,
    pub weight_buff_amount: u8,
    pub np_gain_amount: u8,
    pub noah_gain_amount: u8,
    pub exp_gain_buff11: u16,
    pub exp_gain_buff33: u16,
    pub skill_np_bonus_33: u8,
    pub skill_np_bonus_42: u8,
}

/// The most health and mana that a player can have.
#[derive(Clone, Copy, Debug, PartialEq, Eq, Structural)]
pub struct BuffPools {
    pub max_hp: i16,
    pub max_mp: i16,
}

/// What buffs set on a player besides their own numbers.
#[derive(Clone, Copy, Debug, PartialEq, Eq, Structural)]
pub struct BuffFlags {
    pub states: BuffStates,
    pub looks: BuffLooks,
    pub resists: BuffResists,
    pub guards: BuffGuards,
    pub gains: BuffGains,
    pub pools: BuffPools,
}

/// A column as a percentage between 0 and `most`.
pub open spec fn percent_column(x: Option<i32>, most: int) -> u8 {
    clamp_to(or_i32(x, 0) as int, 0, most) as u8
}

/// Read a column as a percentage between 0 and `most`.
fn read_percent(x: Option<i32>, most: i32) -> (r: u8)
    requires
        0 <= most <= 255,
    ensures
        r == percent_column(x, most as int),
{
    clamp_i32(x.unwrap_or(0), 0, most) as u8
}

/// What a percentage leaves of a hundred.
pub open spec fn rest_of_hundred(x: u8) -> u8 {
    max_of(100 - x, 0) as u8
}

/// Work out what a percentage leaves of a hundred.
fn hundred_less(x: u8) -> (r: u8)
    ensures
        r == rest_of_hundred(x),
{
    if x < 100 {
        100 - x
    } else {
        0
    }
}

/// A column that counts up to a hundred.
pub open spec fn special_up_to_hundred(row: MagicType4Row) -> u8 {
    min_of(or_i32(row.special_amount, 0) as int, 100) as u8
}

/// Experience that a buff adds to what others have added.
pub open spec fn more_experience(before: u16, row: MagicType4Row) -> u16 {
    let pct = or_i32(row.exp_pct, 0);
    if pct > 100 {
        min_of(before + ((pct - 100) as u16), u16::MAX as int) as u16
    } else {
        before
    }
}

/// Work out the experience that a buff adds.
fn add_experience(before: u16, row: &MagicType4Row) -> (r: u16)
    ensures
        r == more_experience(before, *row),
{
    let pct: i32 = row.exp_pct.unwrap_or(0);
    if pct > 100 {
        let sum: u32 = before as u32 + ((pct - 100) as u16) as u32;
        if sum > u16::MAX as u32 {
            u16::MAX
        } else {
            sum as u16
        }
    } else {
        before
    }
}

/// The look that a size-changing skill gives; 0 for skills without one.
pub open spec fn size_look(skill_id: u32) -> u32 {
    if skill_id == 490034 {
        ABNORMAL_GIANT
    } else if skill_id == 490401 {
        ABNORMAL_GIANT_TARGET
    } else if skill_id == 490035 || skill_id == 490100 {
        ABNORMAL_DWARF
    } else if skill_id == 491415 {
        ABNORMAL_SPECIAL
    } else {
        0u32
    }
}

/// The look that a size-changing skill gives.
pub fn get_size_look(skill_id: u32) -> (r: u32)
    ensures
        r == size_look(skill_id),
{
    match skill_id {
        490034 => ABNORMAL_GIANT,
        490401 => ABNORMAL_GIANT_TARGET,
        490035 | 490100 => ABNORMAL_DWARF,
        491415 => ABNORMAL_SPECIAL,
        _ => 0,
    }
}

/// The look to go back to once a buff's look is gone: the current transformation, or none.
pub open spec fn look_to_keep(f: BuffLooks) -> u32 {
    if f.transform_skill_id != 0 {
        f.transform_skill_id
    } else {
        ABNORMAL_NORMAL
    }
}

/// Which jackpot a skill is; 0 for none.
pub open spec fn jackpot(skill_id: u32) -> u8 {
    if skill_id == 501570 {
        1u8
    } else if skill_id == 501571 {
        2u8
    } else if skill_id == 501572 {
        3u8
    } else {
        0u8
    }
}

/// The element of armor that answers hits: the last two digits of the skill's number in its
/// tree, in eight bits.
pub open spec fn armor_element(s_skill: i16) -> u8 {
    (s_skill - tdiv(s_skill as int, 100) * 100) as u8
}

/// Work out the element of armor that answers hits.
fn get_armor_element(s_skill: i16) -> (r: u8)
    ensures
        r == armor_element(s_skill),
{
    (s_skill % 100) as u8
}

/// Read a column that counts up to a hundred.
fn read_special(row: &MagicType4Row) -> (r: u8)
    ensures
        r == special_up_to_hundred(*row),
{
    row.special_amount.unwrap_or(0).min(100) as u8
}

/// What a drop scroll adds: the low 16 bits of its amount, if they are positive.
pub open spec fn scroll_amount(row: MagicType4Row) -> int {
    max_of(or_i32(row.special_amount, 0) as i16 as int, 0)
}

/// Work out what a drop scroll adds.
fn get_scroll_amount(row: &MagicType4Row) -> (r: i16)
    ensures
        r == scroll_amount(*row),
{
    let amount: i16 = row.special_amount.unwrap_or(0) as i16;
    amount.max(0)
}

/// What a mana shield adds to the percentage that is absorbed.
pub open spec fn absorb_share(row: MagicType4Row) -> u8 {
    max_of(or_i32(row.exp_pct, 0) as int, 0) as u8
}

/// Work out what a mana shield adds.
fn get_absorb_share(row: &MagicType4Row) -> (r: u8)
    ensures
        r == absorb_share(*row),
{
    row.exp_pct.unwrap_or(0).max(0) as u8
}

/// The chance that weapons are disabled: rolls of 0 to 300 below this.
pub const WEAPON_LOSS_LIMIT: i32 = 110;

/// The skill whose mirror sends damage to the attacker alone.
pub const DIRECT_MIRROR_SKILL: u32 = 492028;

/// What a player is or may do after a buff. `roll`, of 0 to 300, decides whether weapons are
/// disabled.
pub open spec fn states_after(f: BuffStates, row: MagicType4Row, roll: i32) -> BuffStates {
    match row.kind {
        BuffKind::SilenceTarget => BuffStates {
            can_use_skills: false,
            ..f
        },
        BuffKind::NoPotions => BuffStates {
            can_use_potions: false,
            ..f
        },
        BuffKind::KaulTransformation => BuffStates {
            is_kaul: true,
            can_use_skills: false,
            ..f
        },
        BuffKind::Undead => BuffStates {
            is_undead: true,
            ..f
        },
        BuffKind::Freeze | BuffKind::BlockMagicalDamage => BuffStates {
            block_magic: true,
            ..f
        },
        BuffKind::Unsight | BuffKind::Blind | BuffKind::DisableTargeting => BuffStates {
            is_blinded: true,
            ..f
        },
        BuffKind::BlockPhysicalDamage => BuffStates {
            block_physical: true,
            ..f
        },
        BuffKind::DevilTransform => BuffStates {
            is_devil: true,
            ..f
        },
        BuffKind::NoRecall => BuffStates {
            can_teleport: false,
            ..f
        },
        BuffKind::ProhibitInvis => BuffStates {
            can_stealth: false,
            ..f
        },
        BuffKind::BlockCurse => BuffStates {
            block_curses: true,
            ..f
        },
        BuffKind::BlockCurseReflect => BuffStates {
            reflect_curses: true,
            ..f
        },
        BuffKind::InstantMagic => BuffStates {
            instant_cast: true,
            ..f
        },
        BuffKind::PremiumMerchant => BuffStates {
            is_premium_merchant: true,
            ..f
        },
        BuffKind::IgnoreWeapon => BuffStates {
            weapons_disabled: roll < WEAPON_LOSS_LIMIT,
            ..f
        },
        _ => f,
    }
}

/// How a player looks after a buff.
pub open spec fn looks_after(f: BuffLooks, row: MagicType4Row, skill_id: u32) -> BuffLooks {
    match row.kind {
        BuffKind::KaulTransformation => BuffLooks { old_abnormal_type: look_to_keep(f), ..f },
        BuffKind::Size => BuffLooks {
            size_effect: if size_look(skill_id) > 0 {
                size_look(skill_id)
            } else {
                f.size_effect
            },
            ..f
        },
        _ => f,
    }
}

/// The percentages of a player's resistances that count after a buff.
pub open spec fn resists_after(f: BuffResists, row: MagicType4Row) -> BuffResists {
    if row.kind == BuffKind::DecreaseResist {
        BuffResists {
            pct_fire_r: rest_of_hundred(percent_column(row.fire_r, 100)),
            pct_cold_r: rest_of_hundred(percent_column(row.cold_r, 100)),
            pct_lightning_r: rest_of_hundred(percent_column(row.lightning_r, 100)),
            pct_magic_r: rest_of_hundred(percent_column(row.magic_r, 100)),
            pct_disease_r: rest_of_hundred(percent_column(row.disease_r, 100)),
            pct_poison_r: rest_of_hundred(percent_column(row.poison_r, 100)),
        }
    } else {
        f
    }
}

/// What protects a player after a buff.
pub open spec fn guards_after(
    f: BuffGuards,
    row: MagicType4Row,
    s_skill: i16,
    skill_id: u32,
) -> BuffGuards {
    match row.kind {
        BuffKind::MageArmor => BuffGuards {
            reflect_armor_type: armor_element(s_skill),
            ..f
        },
        BuffKind::MirrorDamageParty => BuffGuards {
            mirror_damage: true,
            mirror_damage_type: skill_id == DIRECT_MIRROR_SKILL,
            mirror_amount: special_up_to_hundred(row),
            ..f
        },
        BuffKind::DaggerBowDefense => BuffGuards {
            dagger_r_amount: rest_of_hundred(special_up_to_hundred(row)),
            bow_r_amount: rest_of_hundred(special_up_to_hundred(row)),
            ..f
        },
        BuffKind::ResisAndMagicDmg => BuffGuards {
            magic_damage_reduction: percent_column(row.exp_pct, 100),
            ..f
        },
        BuffKind::ManaAbsorb => BuffGuards {
            mana_absorb: (f.mana_absorb + absorb_share(row)) as u8,
            absorb_count: 4,
            ..f
        },
        _ => f,
    }
}

/// What a player gains after a buff.
pub open spec fn gains_after(f: BuffGains, row: MagicType4Row, skill_id: u32) -> BuffGains {
    match row.kind {
        BuffKind::NpDropNoah => BuffGains {
            drop_scroll_amount: (f.drop_scroll_amount + scroll_amount(row)) as i16,
            ..f
        },
        BuffKind::Jackpot => BuffGains {
            jackpot_type: if jackpot(skill_id) > 0 {
                jackpot(skill_id)
            } else {
                f.jackpot_type
            },
            ..f
        },
        BuffKind::Weight => BuffGains {
            weight_buff_amount: percent_column(row.exp_pct, 255),
            ..f
        },
        BuffKind::Loyalty => BuffGains {
            np_gain_amount: percent_column(row.exp_pct, 255),
            ..f
        },
        BuffKind::NoahBonus => BuffGains {
            noah_gain_amount: percent_column(row.exp_pct, 255),
            ..f
        },
        BuffKind::Experience => BuffGains {
            exp_gain_buff11: more_experience(f.exp_gain_buff11, row),
            ..f
        },
        BuffKind::VariousEffects => BuffGains {
            exp_gain_buff33: more_experience(f.exp_gain_buff33, row),
            skill_np_bonus_33: if or_i32(row.special_amount, 0) > 0 {
                or_i32(row.special_amount, 0) as u8
            } else {
                f.skill_np_bonus_33
            },
            ..f
        },
        BuffKind::LoyaltyAmount => BuffGains {
            skill_np_bonus_42: if or_i32(row.special_amount, 0) > 0 {
                or_i32(row.special_amount, 0) as u8
            } else {
                f.skill_np_bonus_42
            },
            ..f
        },
        _ => f,
    }
}

/// A pool after a column has been added to it, kept within its 16 bits.
pub open spec fn raised(pool: i16, column: Option<i32>) -> i16 {
    clamp_to(pool + or_i32(column, 0), i16::MIN as int, i16::MAX as int) as i16
}

/// A player's most health and mana after a buff, whatever its kind: they rise by the row's
/// columns, or fall where those are negative.
pub open spec fn pools_after(f: BuffPools, row: MagicType4Row) -> BuffPools {
    BuffPools { max_hp: raised(f.max_hp, row.max_hp), max_mp: raised(f.max_mp, row.max_mp) }
}

/// A player's flags after a buff. `roll`, of 0 to 300, decides whether weapons are disabled.
pub open spec fn flags_after(
    f: BuffFlags,
    row: MagicType4Row,
    s_skill: i16,
    skill_id: u32,
    roll: i32,
) -> BuffFlags {
    BuffFlags {
        states: states_after(f.states, row, roll),
        looks: looks_after(f.looks, row, skill_id),
        resists: resists_after(f.resists, row),
        guards: guards_after(f.guards, row, s_skill, skill_id),
        gains: gains_after(f.gains, row, skill_id),
        pools: pools_after(f.pools, row),
    }
}

/// The active buff of a row's kind after the row has been applied: Kaul's armor grows, weapon
/// damage is taken from the row, and negative armor of attack speed buffs counts as a sour.
/// The last two change only the buff of the very skill.
pub open spec fn active_after(
    active: Option<ActiveBuff>,
    row: MagicType4Row,
    skill_id: u32,
) -> Option<ActiveBuff> {
    match active {
        None => None,
        Some(b) => Some(
            if row.kind == BuffKind::KaulTransformation {
                ActiveBuff { ac: (b.ac + 500) as i32, ..b }
            } else if row.kind == BuffKind::WeaponDamage && b.skill_id == skill_id {
                ActiveBuff { weapon_damage: or_i32(row.attack, 0), ..b }
            } else if row.kind == BuffKind::AttackSpeedArmor && b.skill_id == skill_id && or_i32(
                row.ac,
                0,
            ) < 0 {
                ActiveBuff { ac_sour: (-or_i32(row.ac, 0)) as i32, ac: 0, ..b }
            } else {
                b
            },
        ),
    }
}

/// Whether the counters that a buff adds to stay within their types.
pub open spec fn counters_fit(
    f: BuffFlags,
    active: Option<ActiveBuff>,
    row: MagicType4Row,
) -> bool {
    &&& row.kind == BuffKind::NpDropNoah ==> f.gains.drop_scroll_amount + scroll_amount(
        row,
    ) <= i16::MAX
    &&& row.kind == BuffKind::ManaAbsorb ==> f.guards.mana_absorb + absorb_share(row) <= u8::MAX
    &&& row.kind == BuffKind::KaulTransformation && active is Some ==> active->0.ac <= i32::MAX
        - 500
    &&& row.kind == BuffKind::AttackSpeedArmor ==> or_i32(row.ac, 0) > i32::MIN
}

/// Work out what a player is or may do after a buff.
pub fn settle_states(f: BuffStates, row: &MagicType4Row, roll: i32) -> (r: BuffStates)
    ensures
        r == states_after(f, *row, roll),
{
    match row.kind {
        BuffKind::SilenceTarget => BuffStates {
            can_use_skills: false,
            ..f
        },
        BuffKind::NoPotions => BuffStates {
            can_use_potions: false,
            ..f
        },
        BuffKind::KaulTransformation => BuffStates {
            is_kaul: true,
            can_use_skills: false,
            ..f
        },
        BuffKind::Undead => BuffStates {
            is_undead: true,
            ..f
        },
        BuffKind::Freeze | BuffKind::BlockMagicalDamage => BuffStates {
            block_magic: true,
            ..f
        },
        BuffKind::Unsight | BuffKind::Blind | BuffKind::DisableTargeting => BuffStates {
            is_blinded: true,
            ..f
        },
        BuffKind::BlockPhysicalDamage => BuffStates {
            block_physical: true,
            ..f
        },
        BuffKind::DevilTransform => BuffStates {
            is_devil: true,
            ..f
        },
        BuffKind::NoRecall => BuffStates {
            can_teleport: false,
            ..f
        },
        BuffKind::ProhibitInvis => BuffStates {
            can_stealth: false,
            ..f
        },
        BuffKind::BlockCurse => BuffStates {
            block_curses: true,
            ..f
        },
        BuffKind::BlockCurseReflect => BuffStates {
            reflect_curses: true,
            ..f
        },
        BuffKind::InstantMagic => BuffStates {
            instant_cast: true,
            ..f
        },
        BuffKind::PremiumMerchant => BuffStates {
            is_premium_merchant: true,
            ..f
        },
        BuffKind::IgnoreWeapon => BuffStates {
            weapons_disabled: roll < WEAPON_LOSS_LIMIT,
            ..f
        },
        _ => f,
    }
}

/// Work out how a player looks after a buff.
pub fn settle_looks(f: BuffLooks, row: &MagicType4Row, skill_id: u32) -> (r: BuffLooks)
    ensures
        r == looks_after(f, *row, skill_id),
{
    match row.kind {
        BuffKind::KaulTransformation => BuffLooks {
            old_abnormal_type: if f.transform_skill_id != 0 {
                f.transform_skill_id
            } else {
                ABNORMAL_NORMAL
            },
            ..f
        },
        BuffKind::Size => {
            let look: u32 = get_size_look(skill_id);
            if look > 0 {
                BuffLooks { size_effect: look, ..f }
            } else {
                f
            }
        },
        _ => f,
    }
}

/// Work out the percentages of a player's resistances that count after a buff.
pub fn settle_resists(f: BuffResists, row: &MagicType4Row) -> (r: BuffResists)
    ensures
        r == resists_after(f, *row),
{
    if row.kind == BuffKind::DecreaseResist {
        BuffResists {
            pct_fire_r: hundred_less(read_percent(row.fire_r, 100)),
            pct_cold_r: hundred_less(read_percent(row.cold_r, 100)),
            pct_lightning_r: hundred_less(read_percent(row.lightning_r, 100)),
            pct_magic_r: hundred_less(read_percent(row.magic_r, 100)),
            pct_disease_r: hundred_less(read_percent(row.disease_r, 100)),
            pct_poison_r: hundred_less(read_percent(row.poison_r, 100)),
        }
    } else {
        f
    }
}

/// Work out what protects a player after a buff.
pub fn settle_guards(f: BuffGuards, row: &MagicType4Row, s_skill: i16, skill_id: u32) -> (r: BuffGuards)
    requires
        row.kind == BuffKind::ManaAbsorb ==> f.mana_absorb + absorb_share(*row) <= u8::MAX,
    ensures
        r == guards_after(f, *row, s_skill, skill_id),
{
    match row.kind {
        BuffKind::MageArmor => BuffGuards {
            reflect_armor_type: get_armor_element(s_skill),
            ..f
        },
        BuffKind::MirrorDamageParty => BuffGuards {
            mirror_damage: true,
            mirror_damage_type: skill_id == DIRECT_MIRROR_SKILL,
            mirror_amount: read_special(row),
            ..f
        },
        BuffKind::DaggerBowDefense => BuffGuards {
            dagger_r_amount: hundred_less(read_special(row)),
            bow_r_amount: hundred_less(read_special(row)),
            ..f
        },
        BuffKind::ResisAndMagicDmg => BuffGuards {
            magic_damage_reduction: read_percent(row.exp_pct, 100),
            ..f
        },
        BuffKind::ManaAbsorb => BuffGuards {
            mana_absorb: f.mana_absorb + get_absorb_share(row),
            absorb_count: 4,
            ..f
        },
        _ => f,
    }
}

/// Work out what a player gains after a buff.
pub fn settle_gains(f: BuffGains, row: &MagicType4Row, skill_id: u32) -> (r: BuffGains)
    requires
        row.kind == BuffKind::NpDropNoah ==> f.drop_scroll_amount + scroll_amount(*row) <= i16::MAX,
    ensures
        r == gains_after(f, *row, skill_id),
{
    match row.kind {
        BuffKind::NpDropNoah => BuffGains {
            drop_scroll_amount: f.drop_scroll_amount + get_scroll_amount(row),
            ..f
        },
        BuffKind::Jackpot => BuffGains {
            jackpot_type: match skill_id {
                501570 => 1,
                501571 => 2,
                501572 => 3,
                _ => f.jackpot_type,
            },
            ..f
        },
        BuffKind::Weight => BuffGains {
            weight_buff_amount: read_percent(row.exp_pct, 255),
            ..f
        },
        BuffKind::Loyalty => BuffGains {
            np_gain_amount: read_percent(row.exp_pct, 255),
            ..f
        },
        BuffKind::NoahBonus => BuffGains {
            noah_gain_amount: read_percent(row.exp_pct, 255),
            ..f
        },
        BuffKind::Experience => BuffGains {
            exp_gain_buff11: add_experience(f.exp_gain_buff11, row),
            ..f
        },
        BuffKind::VariousEffects => BuffGains {
            exp_gain_buff33: add_experience(f.exp_gain_buff33, row),
            skill_np_bonus_33: if row.special_amount.unwrap_or(0) > 0 {
                row.special_amount.unwrap_or(0) as u8
            } else {
                f.skill_np_bonus_33
            },
            ..f
        },
        BuffKind::LoyaltyAmount => BuffGains {
            skill_np_bonus_42: if row.special_amount.unwrap_or(0) > 0 {
                row.special_amount.unwrap_or(0) as u8
            } else {
                f.skill_np_bonus_42
            },
            ..f
        },
        _ => f,
    }
}

/// Add a column to a pool.
fn raise(pool: i16, column: Option<i32>) -> (r: i16)
    ensures
        r == raised(pool, column),
{
    let sum: i64 = pool as i64 + column.unwrap_or(0) as i64;
    if sum > i16::MAX as i64 {
        i16::MAX
    } else if sum < i16::MIN as i64 {
        i16::MIN
    } else {
        sum as i16
    }
}

/// Work out a player's most health and mana after a buff.
pub fn settle_pools(f: BuffPools, row: &MagicType4Row) -> (r: BuffPools)
    ensures
        r == pools_after(f, *row),
{
    BuffPools { max_hp: raise(f.max_hp, row.max_hp), max_mp: raise(f.max_mp, row.max_mp) }
}

/// Work out a player's flags after a buff, for a given roll.
pub fn settle_type4_flags(
    f: &BuffFlags,
    row: &MagicType4Row,
    s_skill: i16,
    skill_id: u32,
    roll: i32,
) -> (r: BuffFlags)
    requires
        counters_fit(*f, None, *row),
    ensures
        r == flags_after(*f, *row, s_skill, skill_id, roll),
{
    BuffFlags {
        states: settle_states(f.states, row, roll),
        looks: settle_looks(f.looks, row, skill_id),
        resists: settle_resists(f.resists, row),
        guards: settle_guards(f.guards, row, s_skill, skill_id),
        gains: settle_gains(f.gains, row, skill_id),
        pools: settle_pools(f.pools, row),
    }
}

/// Work out the active buff of a row's kind after the row has been applied.
pub fn settle_active_buff(active: Option<ActiveBuff>, row: &MagicType4Row, skill_id: u32) -> (r:
    Option<ActiveBuff>)
    requires
        row.kind == BuffKind::KaulTransformation && active is Some ==> active->0.ac <= i32::MAX
            - 500,
        row.kind == BuffKind::AttackSpeedArmor ==> or_i32(row.ac, 0) > i32::MIN,
    ensures
        r == active_after(active, *row, skill_id),
{
    let b: ActiveBuff = match active {
        Some(b) => b,
        None => {
            return None;
        },
    };
    let ac: i32 = row.ac.unwrap_or(0);
    match row.kind {
        BuffKind::KaulTransformation => Some(ActiveBuff { ac: b.ac + 500, ..b }),
        BuffKind::WeaponDamage => if b.skill_id == skill_id {
            Some(ActiveBuff { weapon_damage: row.attack.unwrap_or(0), ..b })
        } else {
            Some(b)
        },
        BuffKind::AttackSpeedArmor => if b.skill_id == skill_id && ac < 0 {
            Some(ActiveBuff { ac_sour: -ac, ac: 0, ..b })
        } else {
            Some(b)
        },
        _ => Some(b),
    }
}

/// Apply a buff's flags to a player, their most health and mana with them, and what it changes
/// of the player's active buff of the row's kind.
pub fn apply_type4_stats(
    f: &mut BuffFlags,
    active: &mut Option<ActiveBuff>,
    row: &MagicType4Row,
    s_skill: i16,
    skill_id: u32,
)
    requires
        counters_fit(*old(f), *old(active), *row),
    ensures
        exists|x: i32|
            0 <= x <= 300 && *final(f) == #[trigger] flags_after(
                *old(f),
                *row,
                s_skill,
                skill_id,
                x,
            ),
        *final(active) == active_after(*old(active), *row, skill_id),
        final(f).pools.max_hp == raised(old(f).pools.max_hp, row.max_hp),
        final(f).pools.max_mp == raised(old(f).pools.max_mp, row.max_mp),
{
    let x: i32 = roll(0, 300);
    *f = settle_type4_flags(f, row, s_skill, skill_id, x);
    *active = settle_active_buff(*active, row, skill_id);
}

/// Whether a packet shows the look of Kaul for a buff of its kind.
pub open spec fn is_kaul_notice(
    r: Option<Packet>,
    target_sid: u16,
    kind: BuffKind,
    skill_id: u32,
) -> bool {
    match r {
        Some(p) => kind == BuffKind::KaulTransformation && p.opcode == WIZ_STATE_CHANGE && p.data@
            == state_change_payload(target_sid as u32, STATE_CHANGE_ABNORMAL, skill_id),
        None => kind != BuffKind::KaulTransformation,
    }
}

/// The look of Kaul, for those near, where a buff is one.
pub fn broadcast_kaul_state_change(target_sid: u16, row: &MagicType4Row, skill_id: u32) -> (r:
    Option<Packet>)
    ensures
        is_kaul_notice(r, target_sid, row.kind, skill_id),
{
    if row.kind == BuffKind::KaulTransformation {
        Some(build_state_change(target_sid as u32, STATE_CHANGE_ABNORMAL, skill_id))
    } else {
        None
    }
}

/// Whether a packet shows the look of a changed size for a buff of its kind.
pub open spec fn is_size_notice(
    r: Option<Packet>,
    target_sid: u16,
    kind: BuffKind,
    skill_id: u32,
) -> bool {
    match r {
        Some(p) => kind == BuffKind::Size && size_look(skill_id) > 0 && p.opcode
            == WIZ_STATE_CHANGE && p.data@ == state_change_payload(
            target_sid as u32,
            STATE_CHANGE_ABNORMAL,
            size_look(skill_id),
        ),
        None => kind != BuffKind::Size || size_look(skill_id) == 0,
    }
}

/// The look of a changed size, for those near, where a buff is one that has a look.
pub fn broadcast_size_state_change(target_sid: u16, row: &MagicType4Row, skill_id: u32) -> (r:
    Option<Packet>)
    ensures
        is_size_notice(r, target_sid, row.kind, skill_id),
{
    if row.kind != BuffKind::Size {
        return None;
    }
    let look: u32 = get_size_look(skill_id);
    if look == 0 {
        return None;
    }
    Some(build_state_change(target_sid as u32, STATE_CHANGE_ABNORMAL, look))
}

/// What those near see of a buff.
#[derive(Clone, Debug)]
pub struct BuffLook {
    /// A changed state of the player.
    pub state: Option<Packet>,
    /// Hands that are shown empty, to everyone but the player.
    pub right_hand: Option<Packet>,
    pub left_hand: Option<Packet>,
}

/// The payload of a hand that is shown empty.
pub open spec fn hidden_hand(id: u32, slot: u8) -> Seq<u8> {
    (u32_bytes(id).push(slot) + u32_bytes(0) + u16_bytes(0)).push(0)
}

/// Whether an optional packet is there exactly when `when` holds, with an opcode and payload.
pub open spec fn packet_when(p: Option<Packet>, when: bool, opcode: u8, data: Seq<u8>) -> bool {
    match p {
        Some(p) => when && p.opcode == opcode && p.data@ == data,
        None => !when,
    }
}

/// Whether packets show what those near see of a buff, besides Kaul and sizes.
pub open spec fn is_buff_look(
    r: BuffLook,
    target_sid: u16,
    kind: BuffKind,
    skill_id: u32,
    f: BuffFlags,
    left_item: Option<i32>,
) -> bool {
    &&& packet_when(
        r.state,
        kind == BuffKind::DevilTransform || kind == BuffKind::SnowmanTiti,
        WIZ_STATE_CHANGE,
        if kind == BuffKind::DevilTransform {
            state_change_payload(target_sid as u32, STATE_CHANGE_WEAPONS_DISABLED, 1)
        } else {
            state_change_payload(target_sid as u32, STATE_CHANGE_ABNORMAL, skill_id)
        },
    )
    &&& packet_when(
        r.right_hand,
        kind == BuffKind::IgnoreWeapon && f.states.weapons_disabled,
        WIZ_USERLOOK_CHANGE,
        hidden_hand(target_sid as u32, RIGHTHAND),
    )
    &&& packet_when(
        r.left_hand,
        kind == BuffKind::IgnoreWeapon && f.states.weapons_disabled && left_item is Some
            && left_item->0 != WEAPON_SHIELD,
        WIZ_USERLOOK_CHANGE,
        hidden_hand(target_sid as u32, LEFTHAND),
    )
}

/// A player after those near have seen a buff: a snowman keeps the look to go back to.
pub open spec fn after_look(f: BuffFlags, kind: BuffKind) -> BuffFlags {
    if kind == BuffKind::SnowmanTiti {
        BuffFlags {
            looks: BuffLooks { old_abnormal_type: look_to_keep(f.looks), ..f.looks },
            ..f
        }
    } else {
        f
    }
}

/// What those near see of a buff, besides Kaul and sizes: devils, snowmen, and hands without
/// weapons. `left_item` is the kind of the item in the left hand, if there is one; a shield
/// stays visible. A snowman's look replaces another, which is kept to go back to.
pub fn broadcast_buff_state_change_on_apply(
    target_sid: u16,
    row: &MagicType4Row,
    skill_id: u32,
    f: &mut BuffFlags,
    left_item: Option<i32>,
) -> (r: BuffLook)
    ensures
        is_buff_look(r, target_sid, row.kind, skill_id, *old(f), left_item),
        *final(f) == after_look(*old(f), row.kind),
{
    let id: u32 = target_sid as u32;
    match row.kind {
        BuffKind::DevilTransform => BuffLook {
            state: Some(build_state_change(id, STATE_CHANGE_WEAPONS_DISABLED, 1)),
            right_hand: None,
            left_hand: None,
        },
        BuffKind::IgnoreWeapon => {
            if !f.states.weapons_disabled {
                return BuffLook { state: None, right_hand: None, left_hand: None };
            }
            let left_hand: Option<Packet> = match left_item {
                Some(kind) => if kind != WEAPON_SHIELD {
                    Some(build_hidden_slot(id, LEFTHAND))
                } else {
                    None
                },
                None => None,
            };
            BuffLook {
                state: None,
                right_hand: Some(build_hidden_slot(id, RIGHTHAND)),
                left_hand,
            }
        },
        BuffKind::SnowmanTiti => {
            f.looks.old_abnormal_type = if f.looks.transform_skill_id != 0 {
                f.looks.transform_skill_id
            } else {
                ABNORMAL_NORMAL
            };
            BuffLook {
                state: Some(build_state_change(id, STATE_CHANGE_ABNORMAL, skill_id)),
                right_hand: None,
                left_hand: None,
            }
        },
        _ => BuffLook { state: None, right_hand: None, left_hand: None },
    }
}

/// A type that always harms or never does is told apart by its number alone.
pub proof fn law_some_types_always_harm(a: ActiveBuff, b: ActiveBuff)
    requires
        a.buff_type == b.buff_type,
        !(a.buff_type == 1 || a.buff_type == 2 || 4 <= a.buff_type <= 7 || a.buff_type == 9
            || a.buff_type == 10 || a.buff_type == 46),
    ensures
        debuff(a) == debuff(b),
{
}

/// Every buff that harms is of a known type.
pub proof fn law_debuffs_are_known(b: ActiveBuff)
    requires
        debuff(b),
    ensures
        known_buff_type(b.buff_type),
{
}

/// A new buff was not prolonged and has no weapon damage or sour yet, and one whose row names
/// no duration lasts no time.
pub proof fn law_new_buffs_are_fresh(
    skill_id: u32,
    caster_sid: u16,
    row: MagicType4Row,
    is_buff: bool,
    now: u64,
)
    ensures
        ({
            let b = buff_of_row(skill_id, caster_sid, row, is_buff, now);
            &&& !b.duration_extended
            &&& b.weapon_damage == 0
            &&& b.ac_sour == 0
            &&& (row.duration is None ==> b.duration_secs == 0)
        }),
{
}

/// A buff leaves alone what its kind does not speak of: only kinds of their own change whether
/// a player may use skills, potions or teleports.
pub proof fn law_buffs_keep_to_their_kind(
    f: BuffFlags,
    row: MagicType4Row,
    s_skill: i16,
    skill_id: u32,
    roll: i32,
)
    ensures
        ({
            let g = flags_after(f, row, s_skill, skill_id, roll);
            &&& g.states.can_use_skills != f.states.can_use_skills ==> row.kind == BuffKind::SilenceTarget
                || row.kind == BuffKind::KaulTransformation
            &&& g.states.can_use_potions != f.states.can_use_potions ==> row.kind == BuffKind::NoPotions
            &&& g.states.can_teleport != f.states.can_teleport ==> row.kind == BuffKind::NoRecall
            &&& g.states.weapons_disabled != f.states.weapons_disabled ==> row.kind == BuffKind::IgnoreWeapon
            &&& g.looks.transform_skill_id == f.looks.transform_skill_id
        }),
{
}

/// What a buff adds to a player's most health and mana can be taken away again when it ends,
/// as long as the sums fit.
pub proof fn law_pools_can_be_taken_back(f: BuffPools, row: MagicType4Row, back: MagicType4Row)
    requires
        i16::MIN <= f.max_hp + or_i32(row.max_hp, 0) <= i16::MAX,
        i16::MIN <= f.max_mp + or_i32(row.max_mp, 0) <= i16::MAX,
        or_i32(back.max_hp, 0) == -or_i32(row.max_hp, 0),
        or_i32(back.max_mp, 0) == -or_i32(row.max_mp, 0),
    ensures
        pools_after(f, row).max_hp == f.max_hp + or_i32(row.max_hp, 0),
        pools_after(f, row).max_mp == f.max_mp + or_i32(row.max_mp, 0),
        pools_after(pools_after(f, row), back) == f,
{
}

/// Each number of a buff comes from the column of its own name and from no other: a row with
/// that column changed gives the same buff with that number changed, and an empty column gives
/// 0. The duration is the row's, and 0 where that is negative; what the row says nothing of
/// comes from the cast.
pub proof fn law_columns_keep_to_their_names(
    skill_id: u32,
    caster_sid: u16,
    row: MagicType4Row,
    v: i32,
    is_buff: bool,
    now: u64,
)
    ensures
        ({
            let b = |row: MagicType4Row| buff_of_row(skill_id, caster_sid, row, is_buff, now);
            &&& b(MagicType4Row { attack_speed: Some(v), ..row }) == (ActiveBuff { attack_speed: v, ..b(row) })
            &&& b(MagicType4Row { attack_speed: None, ..row }) == (ActiveBuff { attack_speed: 0, ..b(row) })
            &&& b(MagicType4Row { speed: Some(v), ..row }) == (ActiveBuff { speed: v, ..b(row) })
            &&& b(MagicType4Row { speed: None, ..row }) == (ActiveBuff { speed: 0, ..b(row) })
            &&& b(MagicType4Row { ac: Some(v), ..row }) == (ActiveBuff { ac: v, ..b(row) })
            &&& b(MagicType4Row { ac: None, ..row }) == (ActiveBuff { ac: 0, ..b(row) })
            &&& b(MagicType4Row { ac_pct: Some(v), ..row }) == (ActiveBuff { ac_pct: v, ..b(row) })
            &&& b(MagicType4Row { ac_pct: None, ..row }) == (ActiveBuff { ac_pct: 0, ..b(row) })
            &&& b(MagicType4Row { attack: Some(v), ..row }) == (ActiveBuff { attack: v, ..b(row) })
            &&& b(MagicType4Row { attack: None, ..row }) == (ActiveBuff { attack: 0, ..b(row) })
            &&& b(MagicType4Row { magic_attack: Some(v), ..row }) == (ActiveBuff { magic_attack: v, ..b(row) })
            &&& b(MagicType4Row { magic_attack: None, ..row }) == (ActiveBuff { magic_attack: 0, ..b(row) })
            &&& b(MagicType4Row { max_hp: Some(v), ..row }) == (ActiveBuff { max_hp: v, ..b(row) })
            &&& b(MagicType4Row { max_hp: None, ..row }) == (ActiveBuff { max_hp: 0, ..b(row) })
            &&& b(MagicType4Row { max_hp_pct: Some(v), ..row }) == (ActiveBuff { max_hp_pct: v, ..b(row) })
            &&& b(MagicType4Row { max_hp_pct: None, ..row }) == (ActiveBuff { max_hp_pct: 0, ..b(row) })
            &&& b(MagicType4Row { max_mp: Some(v), ..row }) == (ActiveBuff { max_mp: v, ..b(row) })
            &&& b(MagicType4Row { max_mp: None, ..row }) == (ActiveBuff { max_mp: 0, ..b(row) })
            &&& b(MagicType4Row { max_mp_pct: Some(v), ..row }) == (ActiveBuff { max_mp_pct: v, ..b(row) })
            &&& b(MagicType4Row { max_mp_pct: None, ..row }) == (ActiveBuff { max_mp_pct: 0, ..b(row) })
            &&& b(MagicType4Row { str: Some(v), ..row }) == (ActiveBuff { str_mod: v, ..b(row) })
            &&& b(MagicType4Row { str: None, ..row }) == (ActiveBuff { str_mod: 0, ..b(row) })
            &&& b(MagicType4Row { sta: Some(v), ..row }) == (ActiveBuff { sta_mod: v, ..b(row) })
            &&& b(MagicType4Row { sta: None, ..row }) == (ActiveBuff { sta_mod: 0, ..b(row) })
            &&& b(MagicType4Row { dex: Some(v), ..row }) == (ActiveBuff { dex_mod: v, ..b(row) })
            &&& b(MagicType4Row { dex: None, ..row }) == (ActiveBuff { dex_mod: 0, ..b(row) })
            &&& b(MagicType4Row { intel: Some(v), ..row }) == (ActiveBuff { intel_mod: v, ..b(row) })
            &&& b(MagicType4Row { intel: None, ..row }) == (ActiveBuff { intel_mod: 0, ..b(row) })
            &&& b(MagicType4Row { cha: Some(v), ..row }) == (ActiveBuff { cha_mod: v, ..b(row) })
            &&& b(MagicType4Row { cha: None, ..row }) == (ActiveBuff { cha_mod: 0, ..b(row) })
            &&& b(MagicType4Row { fire_r: Some(v), ..row }) == (ActiveBuff { fire_r: v, ..b(row) })
            &&& b(MagicType4Row { fire_r: None, ..row }) == (ActiveBuff { fire_r: 0, ..b(row) })
            &&& b(MagicType4Row { cold_r: Some(v), ..row }) == (ActiveBuff { cold_r: v, ..b(row) })
            &&& b(MagicType4Row { cold_r: None, ..row }) == (ActiveBuff { cold_r: 0, ..b(row) })
            &&& b(MagicType4Row { lightning_r: Some(v), ..row }) == (ActiveBuff { lightning_r: v, ..b(row) })
            &&& b(MagicType4Row { lightning_r: None, ..row }) == (ActiveBuff { lightning_r: 0, ..b(row) })
            &&& b(MagicType4Row { magic_r: Some(v), ..row }) == (ActiveBuff { magic_r: v, ..b(row) })
            &&& b(MagicType4Row { magic_r: None, ..row }) == (ActiveBuff { magic_r: 0, ..b(row) })
            &&& b(MagicType4Row { disease_r: Some(v), ..row }) == (ActiveBuff { disease_r: v, ..b(row) })
            &&& b(MagicType4Row { disease_r: None, ..row }) == (ActiveBuff { disease_r: 0, ..b(row) })
            &&& b(MagicType4Row { poison_r: Some(v), ..row }) == (ActiveBuff { poison_r: v, ..b(row) })
            &&& b(MagicType4Row { poison_r: None, ..row }) == (ActiveBuff { poison_r: 0, ..b(row) })
            &&& b(MagicType4Row { hit_rate: Some(v), ..row }) == (ActiveBuff { hit_rate: v, ..b(row) })
            &&& b(MagicType4Row { hit_rate: None, ..row }) == (ActiveBuff { hit_rate: 0, ..b(row) })
            &&& b(MagicType4Row { avoid_rate: Some(v), ..row }) == (ActiveBuff { avoid_rate: v, ..b(row) })
            &&& b(MagicType4Row { avoid_rate: None, ..row }) == (ActiveBuff { avoid_rate: 0, ..b(row) })
            &&& b(MagicType4Row { buff_type: Some(v), ..row }) == (ActiveBuff { buff_type: v, ..b(row) })
            &&& b(MagicType4Row { buff_type: None, ..row }) == (ActiveBuff { buff_type: 0, ..b(row) })
            &&& v >= 0 ==> b(MagicType4Row { duration: Some(v), ..row }) == (ActiveBuff {
                duration_secs: v as u32,
                ..b(row)
            })
            &&& v < 0 ==> b(MagicType4Row { duration: Some(v), ..row }).duration_secs == 0
            &&& b(MagicType4Row { duration: None, ..row }).duration_secs == 0
            &&& b(MagicType4Row { exp_pct: Some(v), ..row }) == b(row)
            &&& b(MagicType4Row { special_amount: Some(v), ..row }) == b(row)
            &&& b(MagicType4Row { radius: Some(v), ..row }) == b(row)
            &&& b(row).skill_id == skill_id
            &&& b(row).caster_sid == caster_sid
            &&& b(row).start_time == now
            &&& b(row).is_buff == is_buff
            &&& b(row).weapon_damage == 0
            &&& b(row).ac_sour == 0
            &&& !b(row).duration_extended
        }),
{
}

/// Which buffs harm: less than 100 percent of attack, speeds, rates or magic, negative health,
/// a negative stat, or negative armor that no percentage makes up for, each by the buff types
/// that carry it; some types harm in any case, and all others never.
pub proof fn law_what_harms(b: ActiveBuff)
    ensures
        b.buff_type == 1 ==> (debuff(b) <==> b.max_hp < 0),
        b.buff_type == 2 ==> (debuff(b) <==> b.ac < 0 && b.ac_pct < 100),
        b.buff_type == 4 ==> (debuff(b) <==> b.attack < 100),
        b.buff_type == 5 ==> (debuff(b) <==> b.attack_speed < 100),
        b.buff_type == 6 ==> (debuff(b) <==> b.speed < 100),
        b.buff_type == 7 ==> (debuff(b) <==> !(b.str_mod >= 0 && b.sta_mod >= 0 && b.dex_mod >= 0
            && b.intel_mod >= 0 && b.cha_mod >= 0)),
        b.buff_type == 9 ==> (debuff(b) <==> !(b.hit_rate >= 100 && b.avoid_rate >= 100)),
        b.buff_type == 10 ==> (debuff(b) <==> b.magic_attack < 100),
        b.buff_type == 46 ==> (debuff(b) <==> !(b.speed >= 100 && b.attack_speed >= 100)),
        b.buff_type == 3 || b.buff_type == 20 || b.buff_type == 21 || b.buff_type == 40 || 43
            <= b.buff_type <= 45 || b.buff_type == 47 ==> debuff(b),
        b.buff_type <= 0 || b.buff_type == 8 || 11 <= b.buff_type <= 19 || 22 <= b.buff_type <= 39
            || b.buff_type == 41 || b.buff_type == 42 || b.buff_type >= 48 ==> !debuff(b),
        known_buff_type(b.buff_type) <==> 1 <= b.buff_type <= 11 || b.buff_type == 15
            || b.buff_type == 20 || b.buff_type == 21 || b.buff_type == 25 || 40 <= b.buff_type
            <= 47,
{
}

/// A state that a buff changes stays with those buffs that are of its kind: each flag turns
/// only by its own kinds, and always the same way. Weapons are disabled by 110 rolls of 301.
pub proof fn law_kinds_turn_their_states(f: BuffStates, row: MagicType4Row, roll: i32)
    ensures
        ({
            let k = row.kind;
            let g = states_after(f, row, roll);
            &&& g.can_use_skills == (f.can_use_skills && k != BuffKind::SilenceTarget && k
                != BuffKind::KaulTransformation)
            &&& g.can_use_potions == (f.can_use_potions && k != BuffKind::NoPotions)
            &&& g.can_teleport == (f.can_teleport && k != BuffKind::NoRecall)
            &&& g.can_stealth == (f.can_stealth && k != BuffKind::ProhibitInvis)
            &&& g.is_kaul == (f.is_kaul || k == BuffKind::KaulTransformation)
            &&& g.is_undead == (f.is_undead || k == BuffKind::Undead)
            &&& g.is_devil == (f.is_devil || k == BuffKind::DevilTransform)
            &&& g.is_blinded == (f.is_blinded || k == BuffKind::Unsight || k == BuffKind::Blind
                || k == BuffKind::DisableTargeting)
            &&& g.block_magic == (f.block_magic || k == BuffKind::Freeze || k
                == BuffKind::BlockMagicalDamage)
            &&& g.block_physical == (f.block_physical || k == BuffKind::BlockPhysicalDamage)
            &&& g.block_curses == (f.block_curses || k == BuffKind::BlockCurse)
            &&& g.reflect_curses == (f.reflect_curses || k == BuffKind::BlockCurseReflect)
            &&& g.instant_cast == (f.instant_cast || k == BuffKind::InstantMagic)
            &&& g.is_premium_merchant == (f.is_premium_merchant || k
                == BuffKind::PremiumMerchant)
            &&& k == BuffKind::IgnoreWeapon ==> g.weapons_disabled == (roll <= 109)
            &&& k != BuffKind::IgnoreWeapon ==> g.weapons_disabled == f.weapons_disabled
        }),
{
}

/// Looks: Kaul keeps the shape to go back to, which is the current transformation or the plain
/// look; a size skill changes the size, to that of its own look. Nothing else changes a look.
pub proof fn law_looks_after_a_buff(f: BuffLooks, row: MagicType4Row, skill_id: u32)
    ensures
        ({
            let g = looks_after(f, row, skill_id);
            let giant = skill_id == 490034;
            let dwarf = skill_id == 490035 || skill_id == 490100;
            &&& g.transform_skill_id == f.transform_skill_id
            &&& row.kind != BuffKind::KaulTransformation ==> g.old_abnormal_type
                == f.old_abnormal_type
            &&& row.kind == BuffKind::KaulTransformation ==> {
                &&& f.transform_skill_id == 0 ==> g.old_abnormal_type == 1
                &&& f.transform_skill_id != 0 ==> g.old_abnormal_type == f.transform_skill_id
            }
            &&& row.kind != BuffKind::Size ==> g.size_effect == f.size_effect
            &&& row.kind == BuffKind::Size ==> {
                &&& giant ==> g.size_effect == 2
                &&& dwarf ==> g.size_effect == 3
                &&& skill_id == 490401 ==> g.size_effect == 6
                &&& skill_id == 491415 ==> g.size_effect == 9
                &&& !giant && !dwarf && skill_id != 490401 && skill_id != 491415 ==> g.size_effect
                    == f.size_effect
            }
            &&& (size_look(skill_id) == 0 <==> !giant && !dwarf && skill_id != 490401 && skill_id
                != 491415)
        }),
{
}

/// A buff that lowers resistances leaves of each what its own column leaves of a hundred; every
/// other buff leaves them alone.
pub proof fn law_resistances_after_a_buff(f: BuffResists, row: MagicType4Row)
    ensures
        row.kind != BuffKind::DecreaseResist ==> resists_after(f, row) == f,
        row.kind == BuffKind::DecreaseResist ==> {
            let g = resists_after(f, row);
            &&& left_of_hundred(g.pct_fire_r, row.fire_r)
            &&& left_of_hundred(g.pct_cold_r, row.cold_r)
            &&& left_of_hundred(g.pct_lightning_r, row.lightning_r)
            &&& left_of_hundred(g.pct_magic_r, row.magic_r)
            &&& left_of_hundred(g.pct_disease_r, row.disease_r)
            &&& left_of_hundred(g.pct_poison_r, row.poison_r)
        },
{
}

/// Whether a percentage is what a column leaves of a hundred: all of it for an empty or negative
/// column, nothing for one of 100 or more.
pub open spec fn left_of_hundred(left: u8, column: Option<i32>) -> bool {
    match column {
        None => left == 100,
        Some(v) => {
            &&& v <= 0 ==> left == 100
            &&& 0 <= v <= 100 ==> left + v == 100
            &&& v >= 100 ==> left == 0
        },
    }
}

/// What protects a player changes by the kind that speaks of it alone: armor takes the element
/// of the skill's last two digits, mirrors the row's amount up to a hundred, daggers and bows
/// what the row leaves of a hundred, magic the row's percentage, and a mana shield adds its
/// percentage and lasts four hits.
pub proof fn law_guards_after_a_buff(
    f: BuffGuards,
    row: MagicType4Row,
    s_skill: i16,
    skill_id: u32,
)
    requires
        0 <= or_i32(row.special_amount, 0),
        row.kind == BuffKind::ManaAbsorb ==> 0 <= or_i32(row.exp_pct, 0) <= 255 - f.mana_absorb,
        s_skill >= 0,
    ensures
        ({
            let g = guards_after(f, row, s_skill, skill_id);
            let special = or_i32(row.special_amount, 0);
            let pct = or_i32(row.exp_pct, 0);
            &&& row.kind == BuffKind::MageArmor ==> g == (BuffGuards {
                reflect_armor_type: (s_skill % 100) as u8,
                ..f
            })
            &&& row.kind == BuffKind::MirrorDamageParty ==> {
                &&& g.mirror_damage
                &&& g.mirror_damage_type == (skill_id == 492028)
                &&& special <= 100 ==> g.mirror_amount == special
                &&& special > 100 ==> g.mirror_amount == 100
                &&& g == (BuffGuards {
                    mirror_damage: g.mirror_damage,
                    mirror_damage_type: g.mirror_damage_type,
                    mirror_amount: g.mirror_amount,
                    ..f
                })
            }
            &&& row.kind == BuffKind::DaggerBowDefense ==> {
                &&& left_of_hundred(g.dagger_r_amount, row.special_amount)
                &&& left_of_hundred(g.bow_r_amount, row.special_amount)
                &&& g == (BuffGuards {
                    dagger_r_amount: g.dagger_r_amount,
                    bow_r_amount: g.bow_r_amount,
                    ..f
                })
            }
            &&& row.kind == BuffKind::ResisAndMagicDmg ==> {
                &&& pct <= 0 ==> g.magic_damage_reduction == 0
                &&& 0 <= pct <= 100 ==> g.magic_damage_reduction == pct
                &&& pct >= 100 ==> g.magic_damage_reduction == 100
                &&& g == (BuffGuards { magic_damage_reduction: g.magic_damage_reduction, ..f })
            }
            &&& row.kind == BuffKind::ManaAbsorb ==> {
                &&& g.mana_absorb - f.mana_absorb == pct
                &&& g.absorb_count == 4
                &&& g == (BuffGuards {
                    mana_absorb: g.mana_absorb,
                    absorb_count: g.absorb_count,
                    ..f
                })
            }
            &&& row.kind != BuffKind::MageArmor && row.kind != BuffKind::MirrorDamageParty
                && row.kind != BuffKind::DaggerBowDefense && row.kind
                != BuffKind::ResisAndMagicDmg && row.kind != BuffKind::ManaAbsorb ==> g == f
        }),
{
}

/// What a player gains changes by the kind that speaks of it alone: scrolls and experience add
/// to what there is, percentages and points replace it, and jackpots go by their skill.
pub proof fn law_gains_after_a_buff(f: BuffGains, row: MagicType4Row, skill_id: u32)
    requires
        0 <= or_i32(row.special_amount, 0) <= 255,
        0 <= or_i32(row.exp_pct, 0) <= 255,
        0 <= f.drop_scroll_amount <= 30000,
        f.exp_gain_buff11 <= 60000,
        f.exp_gain_buff33 <= 60000,
    ensures
        ({
            let g = gains_after(f, row, skill_id);
            let special = or_i32(row.special_amount, 0);
            let pct = or_i32(row.exp_pct, 0);
            let more = if pct > 100 {
                pct - 100
            } else {
                0
            };
            &&& g.drop_scroll_amount - f.drop_scroll_amount == (if row.kind
                == BuffKind::NpDropNoah {
                special as int
            } else {
                0
            })
            &&& g.exp_gain_buff11 - f.exp_gain_buff11 == (if row.kind == BuffKind::Experience {
                more
            } else {
                0
            })
            &&& g.exp_gain_buff33 - f.exp_gain_buff33 == (if row.kind
                == BuffKind::VariousEffects {
                more
            } else {
                0
            })
            &&& g.weight_buff_amount == (if row.kind == BuffKind::Weight {
                pct as int
            } else {
                f.weight_buff_amount as int
            })
            &&& g.np_gain_amount == (if row.kind == BuffKind::Loyalty {
                pct as int
            } else {
                f.np_gain_amount as int
            })
            &&& g.noah_gain_amount == (if row.kind == BuffKind::NoahBonus {
                pct as int
            } else {
                f.noah_gain_amount as int
            })
            &&& g.skill_np_bonus_33 == (if row.kind == BuffKind::VariousEffects && special > 0 {
                special as int
            } else {
                f.skill_np_bonus_33 as int
            })
            &&& g.skill_np_bonus_42 == (if row.kind == BuffKind::LoyaltyAmount && special > 0 {
                special as int
            } else {
                f.skill_np_bonus_42 as int
            })
            &&& row.kind == BuffKind::Jackpot && 501570 <= skill_id <= 501572 ==> g.jackpot_type
                == skill_id - 501569
            &&& !(row.kind == BuffKind::Jackpot && 501570 <= skill_id <= 501572)
                ==> g.jackpot_type == f.jackpot_type
        }),
{
}

/// All parts of a player's flags change together, each by its own rule and by no other part.
/// Whatever the kind, the most health and mana rise by the columns of their own names.
pub proof fn law_parts_change_by_themselves(
    f: BuffFlags,
    row: MagicType4Row,
    s_skill: i16,
    skill_id: u32,
    roll: i32,
)
    ensures
        ({
            let g = flags_after(f, row, s_skill, skill_id, roll);
            let hp = f.pools.max_hp + or_i32(row.max_hp, 0);
            let mp = f.pools.max_mp + or_i32(row.max_mp, 0);
            &&& g.states == states_after(f.states, row, roll)
            &&& g.looks == looks_after(f.looks, row, skill_id)
            &&& g.resists == resists_after(f.resists, row)
            &&& g.guards == guards_after(f.guards, row, s_skill, skill_id)
            &&& g.gains == gains_after(f.gains, row, skill_id)
            &&& -32768 <= hp <= 32767 ==> g.pools.max_hp == hp
            &&& hp > 32767 ==> g.pools.max_hp == 32767
            &&& hp < -32768 ==> g.pools.max_hp == -32768
            &&& -32768 <= mp <= 32767 ==> g.pools.max_mp == mp
            &&& mp > 32767 ==> g.pools.max_mp == 32767
            &&& mp < -32768 ==> g.pools.max_mp == -32768
        }),
{
}

/// An active buff changes by three kinds alone: Kaul adds 500 to its armor, weapon damage takes
/// the row's attack, and attack speed turns the row's negative armor into a sour and takes the
/// armor away. The last two touch only the buff of the very skill, and no buff comes or goes.
pub proof fn law_active_buffs_change(
    b: ActiveBuff,
    row: MagicType4Row,
    skill_id: u32,
)
    requires
        b.ac <= i32::MAX - 500,
        or_i32(row.ac, 0) > i32::MIN,
    ensures
        active_after(None, row, skill_id) is None,
        active_after(Some(b), row, skill_id) is Some,
        ({
            let a = active_after(Some(b), row, skill_id)->0;
            let own = b.skill_id == skill_id;
            let sours = row.kind == BuffKind::AttackSpeedArmor && own && or_i32(row.ac, 0) < 0;
            &&& a.ac == (if row.kind == BuffKind::KaulTransformation {
                b.ac + 500
            } else if sours {
                0
            } else {
                b.ac as int
            })
            &&& a.weapon_damage == (if row.kind == BuffKind::WeaponDamage && own {
                or_i32(row.attack, 0)
            } else {
                b.weapon_damage
            })
            &&& sours ==> a.ac_sour + or_i32(row.ac, 0) == 0
            &&& !sours ==> a.ac_sour == b.ac_sour
            &&& a == (ActiveBuff {
                ac: a.ac,
                weapon_damage: a.weapon_damage,
                ac_sour: a.ac_sour,
                ..b
            })
        }),
{
}

/// What those near see of buffs: the look of Kaul is the skill's own number; a size shows look 2
/// for skill 490034, 6 for 490401, 3 for 490035 and 490100, and 9 for 491415, and none for
/// others. Both are state changes of kind 3 of that very player.
pub proof fn law_looks_that_are_shown(
    kaul: Option<Packet>,
    size: Option<Packet>,
    sid: u16,
    kind: BuffKind,
    skill_id: u32,
)
    requires
        is_kaul_notice(kaul, sid, kind, skill_id),
        is_size_notice(size, sid, kind, skill_id),
    ensures
        kaul is Some <==> kind is KaulTransformation,
        kaul is Some ==> kaul->0.opcode == 0x29 && kaul->0.data@ == state_change_payload(
            sid as u32,
            3,
            skill_id,
        ),
        size is Some <==> kind is Size && (skill_id == 490034 || skill_id == 490035 || skill_id
            == 490100 || skill_id == 490401 || skill_id == 491415),
        size is Some ==> size->0.opcode == 0x29,
        size is Some && skill_id == 490034 ==> size->0.data@ == state_change_payload(
            sid as u32,
            3,
            2,
        ),
        size is Some && skill_id == 490401 ==> size->0.data@ == state_change_payload(
            sid as u32,
            3,
            6,
        ),
        size is Some && (skill_id == 490035 || skill_id == 490100) ==> size->0.data@
            == state_change_payload(sid as u32, 3, 3),
        size is Some && skill_id == 491415 ==> size->0.data@ == state_change_payload(
            sid as u32,
            3,
            9,
        ),
{
}

/// What those near see of devils, snowmen and disarmed players: a devil is a state change of kind
/// 12 and a snowman one of kind 3 with its skill's number. The disarmed show an empty hand in
/// slot 6, and one in slot 8 unless it holds nothing or an item of kind 60. A snowman keeps the
/// look to go back to: the shape's, or 1.
pub proof fn law_hands_and_snowmen(
    r: BuffLook,
    sid: u16,
    kind: BuffKind,
    skill_id: u32,
    f: BuffFlags,
    left_item: Option<i32>,
)
    requires
        is_buff_look(r, sid, kind, skill_id, f, left_item),
    ensures
        ({
            let disarmed = kind is IgnoreWeapon && f.states.weapons_disabled;
            &&& r.state is Some <==> kind is DevilTransform || kind is SnowmanTiti
            &&& r.state is Some ==> r.state->0.opcode == 0x29
            &&& kind is DevilTransform ==> r.state->0.data@ == state_change_payload(
                sid as u32,
                12,
                1,
            )
            &&& kind is SnowmanTiti ==> r.state->0.data@ == state_change_payload(
                sid as u32,
                3,
                skill_id,
            )
            &&& r.right_hand is Some <==> disarmed
            &&& r.left_hand is Some <==> disarmed && left_item is Some && left_item != Some(60i32)
            &&& r.right_hand is Some ==> r.right_hand->0.opcode == 0x2D
                && r.right_hand->0.data@.len() == 12 && r.right_hand->0.data@[4] == 6
            &&& r.left_hand is Some ==> r.left_hand->0.opcode == 0x2D
                && r.left_hand->0.data@.len() == 12 && r.left_hand->0.data@[4] == 8
        }),
        !(kind is SnowmanTiti) ==> after_look(f, kind) == f,
        kind is SnowmanTiti ==> after_look(f, kind) == (BuffFlags {
            looks: after_look(f, kind).looks,
            ..f
        }),
        kind is SnowmanTiti && f.looks.transform_skill_id != 0 ==> after_look(
            f,
            kind,
        ).looks.old_abnormal_type == f.looks.transform_skill_id,
        kind is SnowmanTiti && f.looks.transform_skill_id == 0 ==> after_look(
            f,
            kind,
        ).looks.old_abnormal_type == 1,
{
}

/// Percentages of weight, loyalty and noah lie between 0 and 255, whatever the row says.
pub proof fn law_gains_are_capped(f: BuffGains, row: MagicType4Row, skill_id: u32)
    ensures
        ({
            let g = gains_after(f, row, skill_id);
            let capped = |shown: u8|
                match row.exp_pct {
                    Some(p) => if p < 0 {
                        shown == 0
                    } else if p > 255 {
                        shown == 255
                    } else {
                        shown == p
                    },
                    None => shown == 0,
                };
            &&& row.kind is Weight ==> capped(g.weight_buff_amount)
            &&& row.kind is Loyalty ==> capped(g.np_gain_amount)
            &&& row.kind is NoahBonus ==> capped(g.noah_gain_amount)
        }),
{
}

/// An empty hand is shown as an empty slot: the player in four bytes, the slot, and zeros.
pub proof fn law_empty_hands_are_empty_slots(id: u32, slot: u8, i: int)
    requires
        5 <= i < 12,
    ensures
        hidden_hand(id, slot).len() == 12,
        hidden_hand(id, slot).subrange(0, 4) == u32_bytes(id),
        hidden_hand(id, slot)[4] == slot,
        hidden_hand(id, slot)[i] == 0,
{
    assert(hidden_hand(id, slot).subrange(0, 4) =~= u32_bytes(id));
}

/// Empty columns of a buff's row count as 0 for all that the buff changes.
#[verifier::rlimit(60)]
#[verifier::spinoff_prover]
pub proof fn law_empty_columns_are_0_for_buffs(
    f: BuffFlags,
    active: Option<ActiveBuff>,
    row: MagicType4Row,
    s_skill: i16,
    skill_id: u32,
    caster_sid: u16,
    is_buff: bool,
    now: u64,
    roll: i32,
)
    ensures
        ({
            let r = crate::tables::filled_buff(row);
            &&& buff_of_row(skill_id, caster_sid, r, is_buff, now) == buff_of_row(
                skill_id,
                caster_sid,
                row,
                is_buff,
                now,
            )
            &&& states_after(f.states, r, roll) == states_after(f.states, row, roll)
            &&& resists_after(f.resists, r) == resists_after(f.resists, row)
            &&& guards_after(f.guards, r, s_skill, skill_id) == guards_after(
                f.guards,
                row,
                s_skill,
                skill_id,
            )
            &&& gains_after(f.gains, r, skill_id) == gains_after(f.gains, row, skill_id)
            &&& pools_after(f.pools, r) == pools_after(f.pools, row)
            &&& active_after(active, r, skill_id) == active_after(active, row, skill_id)
        }),
{
}

} // verus!
