//! Spell damage: the whole-number steps of the formula.
//!
//! The formula works on negative numbers, as damage takes health away, and its result is
//! turned around at the end. Between the steps here stand floating-point ones: the scaling by
//! charisma, the class multiplier, the blend of the rolled part, and the weapon's share.

use crate::arith::{clamp_to, divide, max_of, tdiv};
use crate::random::roll;
use crate::skills::{
    class_group, class_group_index, is_mage_class, is_warrior_class, mage_class, warrior_class,
};
use crate::constants::ATTRIBUTE_MAGIC_R;
use vstd::prelude::*;

verus! {

/// No spell does more damage than this.
pub const MAX_DAMAGE: i32 = 32000;

/// What a spell is aimed at.
#[derive(Clone, Copy, Debug, PartialEq, Eq, Structural)]
pub enum MagicTargetKind {
    Player,
    Npc,
}

/// What the formula looks at besides the caster.
#[derive(Clone, Copy, Debug)]
pub struct MagicDamageContext {
    pub target_kind: MagicTargetKind,
    pub target_total_r: i32,
    pub target_class: u16,
    pub target_ac_amount: i32,
    pub is_war_zone: bool,
    pub righthand_damage: i16,
    pub attribute_damage: i16,
    pub attribute: u8,
}

/// An NPC's resistances.
#[derive(Clone, Copy, Debug)]
pub struct NpcResistances {
    pub fire_r: i16,
    pub cold_r: i16,
    pub lightning_r: i16,
    pub magic_r: i16,
    pub disease_r: i16,
    pub poison_r: i16,
}

/// The resistance that goes with a magic attribute; other attributes have none.
pub open spec fn resistance_to(r: NpcResistances, attribute: u8) -> Option<i16> {
    if attribute == 1 {
        Some(r.fire_r)
    } else if attribute == 2 {
        Some(r.cold_r)
    } else if attribute == 3 {
        Some(r.lightning_r)
    } else if attribute == 4 {
        Some(r.magic_r)
    } else if attribute == 5 {
        Some(r.disease_r)
    } else if attribute == 6 {
        Some(r.poison_r)
    } else {
        None
    }
}

/// An NPC's resistance to a magic attribute.
pub open spec fn npc_resistance(npc: Option<NpcResistances>, attribute: u8) -> Option<i16> {
    match npc {
        Some(n) => resistance_to(n, attribute),
        None => None,
    }
}

/// An NPC's resistance to a magic attribute, before any war bonus; `None` where the NPC is
/// unknown or the attribute has no resistance.
pub fn get_npc_target_resistance(npc: &Option<NpcResistances>, attribute: u8) -> (r: Option<i16>)
    ensures
        r == npc_resistance(*npc, attribute),
{
    match npc {
        Some(n) => match attribute {
            1 => Some(n.fire_r),
            2 => Some(n.cold_r),
            3 => Some(n.lightning_r),
            4 => Some(n.magic_r),
            5 => Some(n.disease_r),
            6 => Some(n.poison_r),
            _ => None,
        },
        None => None,
    }
}

/// The context of a spell at a player.
pub open spec fn player_ctx(
    total_resistance: i32,
    class: u16,
    ac_amount: i32,
    is_war_zone: bool,
    weapon: (i16, i16),
    attribute: u8,
) -> MagicDamageContext {
    MagicDamageContext {
        target_kind: MagicTargetKind::Player,
        target_total_r: total_resistance,
        target_class: class,
        target_ac_amount: ac_amount,
        is_war_zone,
        righthand_damage: weapon.0,
        attribute_damage: weapon.1,
        attribute,
    }
}

/// Make the context of a spell at a player.
pub fn build_player_ctx(
    total_resistance: i32,
    class: u16,
    ac_amount: i32,
    is_war_zone: bool,
    weapon: (i16, i16),
    attribute: u8,
) -> (c: MagicDamageContext)
    ensures
        c == player_ctx(total_resistance, class, ac_amount, is_war_zone, weapon, attribute),
{
    MagicDamageContext {
        target_kind: MagicTargetKind::Player,
        target_total_r: total_resistance,
        target_class: class,
        target_ac_amount: ac_amount,
        is_war_zone,
        righthand_damage: weapon.0,
        attribute_damage: weapon.1,
        attribute,
    }
}

/// The context of a spell at an NPC, which has neither class nor armor buffs.
pub open spec fn npc_ctx(
    total_resistance: i32,
    is_war_zone: bool,
    weapon: (i16, i16),
    attribute: u8,
) -> MagicDamageContext {
    MagicDamageContext {
        target_kind: MagicTargetKind::Npc,
        target_total_r: total_resistance,
        target_class: 0,
        target_ac_amount: 0,
        is_war_zone,
        righthand_damage: weapon.0,
        attribute_damage: weapon.1,
        attribute,
    }
}

/// Make the context of a spell at an NPC.
pub fn build_npc_ctx(
    total_resistance: i32,
    is_war_zone: bool,
    weapon: (i16, i16),
    attribute: u8,
) -> (c: MagicDamageContext)
    ensures
        c == npc_ctx(total_resistance, is_war_zone, weapon, attribute),
{
    MagicDamageContext {
        target_kind: MagicTargetKind::Npc,
        target_total_r: total_resistance,
        target_class: 0,
        target_ac_amount: 0,
        is_war_zone,
        righthand_damage: weapon.0,
        attribute_damage: weapon.1,
        attribute,
    }
}

/// Whether a spell's damage goes through the formula: negative damage of direct type 1 or 8,
/// below the general skills.
pub open spec fn uses_formula(first_damage: i32, direct_type: i32, skill_id: u32) -> bool {
    first_damage < 0 && (direct_type == 1 || direct_type == 8) && skill_id < 400000
}

/// Whether a spell's damage goes through the formula.
pub fn use_magic_formula(first_damage: i32, direct_type: i32, skill_id: u32) -> (r: bool)
    ensures
        r == uses_formula(first_damage, direct_type, skill_id),
{
    first_damage < 0 && (direct_type == 1 || direct_type == 8) && skill_id < 400000
}

/// Damage that is taken from the row as it stands.
pub open spec fn plain_damage(first_damage: i32) -> i16 {
    (if first_damage < 0 { -first_damage } else { 0 }) as i16
}

/// Damage that is taken from the row as it stands: the amount that it takes away.
pub fn row_damage(first_damage: i32) -> (r: i16)
    requires
        first_damage > i32::MIN,
    ensures
        r == plain_damage(first_damage),
{
    let lost: i32 = (-first_damage).max(0);
    lost as i16
}

/// A caster's magic power in percent: buffs on top of 170 for mages and 100 for others.
pub open spec fn magic_amount(class: u16, buffs: int) -> int {
    buffs + if mage_class(class) {
        170int
    } else {
        100
    }
}

/// A caster's magic power in percent.
pub fn compute_magic_amount(class: u16, buffs: i32) -> (r: i32)
    requires
        buffs <= i32::MAX - 170,
    ensures
        r == magic_amount(class, buffs as int),
{
    if is_mage_class(class) {
        buffs + 170
    } else {
        buffs + 100
    }
}

/// Damage at a percentage of magic power.
pub fn scale_by_power(total_hit: i32, amount: i32) -> (r: i32)
    requires
        i32::MIN <= total_hit * amount <= i32::MAX,
    ensures
        r == tdiv(total_hit * amount, 100),
        total_hit * amount >= 0 ==> 100 * r <= total_hit * amount < 100 * r + 100,
        total_hit * amount <= 0 ==> 100 * r - 100 < total_hit * amount <= 100 * r,
{
    total_hit * amount / 100
}

/// Damage that a target's resistance leaves.
pub open spec fn resisted(total_hit: int, total_r: int) -> int {
    tdiv(485 * total_hit, total_r + 510)
}

/// Work out the damage that a target's resistance leaves.
pub fn resist_damage(total_hit: i32, total_r: i32) -> (r: i32)
    requires
        i32::MIN < 485 * total_hit <= i32::MAX,
        total_r + 510 <= i32::MAX,
        total_r + 510 != 0,
    ensures
        r == resisted(total_hit as int, total_r as int),
{
    divide(485 * total_hit, total_r + 510)
}

/// Roll the varying part of a spell's damage, which lies between 0 and half of it.
pub fn roll_magic_spread(damage: i32) -> (r: i32)
    ensures
        damage >= 0 ==> 0 <= r <= tdiv(damage as int, 2),
        damage < 0 ==> tdiv(damage as int, 2) <= r <= 0,
        damage >= 0 ==> 0 <= 2 * r <= damage,
        damage <= 0 ==> damage <= 2 * r <= 0,
{
    let half: i32 = damage / 2;
    if half > 0 {
        roll(0, half)
    } else {
        roll(half, 0)
    }
}

/// A weapon's share that grows with the caster's level.
pub fn weapon_level_part(weapon_damage: i16, level: u8) -> (r: i32)
    ensures
        r == tdiv(weapon_damage * level, 60),
        weapon_damage >= 0 ==> 60 * r <= weapon_damage * level < 60 * r + 60,
        weapon_damage <= 0 ==> 60 * r - 60 < weapon_damage * level <= 60 * r,
{
    assert(-32768 * 255 <= weapon_damage * level <= 32767 * 255) by (nonlinear_arith)
        requires
            -32768 <= weapon_damage <= 32767,
            0 <= level <= 255,
    ;
    assert(weapon_damage >= 0 ==> weapon_damage * level >= 0) by (nonlinear_arith)
        requires
            level >= 0,
    ;
    assert(weapon_damage <= 0 ==> weapon_damage * level <= 0) by (nonlinear_arith)
        requires
            level >= 0,
    ;
    (weapon_damage as i32) * (level as i32) / 60
}

/// The damage of a spell, from the blend of its damage with the rolled part. All steps before
/// the last are negative for an attack: the magic power is taken off, a warrior's spell does
/// nothing to NPCs, the weapon adds its share unless the spell is of pure magic, warriors are
/// halved but hurt players with little armor more, and players take a third.
pub open spec fn spell_total(
    class: u16,
    blended: int,
    amount: int,
    weapon_part: int,
    ctx: MagicDamageContext,
) -> int {
    let base = if warrior_class(class) && ctx.target_kind == MagicTargetKind::Npc {
        0
    } else {
        blended - amount
    };
    let armed = if ctx.attribute != ATTRIBUTE_MAGIC_R {
        base - weapon_part
    } else {
        base
    };
    let trained = if warrior_class(class) {
        let half = tdiv(armed, 2);
        if ctx.target_kind == MagicTargetKind::Player && ctx.target_ac_amount < 100 {
            half + tdiv(half * 30, 100)
        } else {
            half
        }
    } else {
        armed
    };
    if ctx.target_kind == MagicTargetKind::Player {
        tdiv(trained, 3)
    } else {
        trained
    }
}

/// The damage of a spell as its target takes it.
pub open spec fn spell_damage(
    class: u16,
    blended: int,
    amount: int,
    weapon_part: int,
    ctx: MagicDamageContext,
) -> int {
    clamp_to(-spell_total(class, blended, amount, weapon_part, ctx), 0, MAX_DAMAGE as int)
}

/// Work out the damage of a spell from the blend of its damage with the rolled part.
pub fn settle_spell(
    class: u16,
    blended: i32,
    amount: i32,
    weapon_part: i32,
    ctx: &MagicDamageContext,
) -> (r: i16)
    ensures
        r == spell_damage(class, blended as int, amount as int, weapon_part as int, *ctx),
{
    let warrior: bool = is_warrior_class(class);
    let at_player: bool = ctx.target_kind == MagicTargetKind::Player;
    let mut damage: i64 = blended as i64 - amount as i64;
    if warrior && !at_player {
        damage = 0;
    }
    if ctx.attribute != ATTRIBUTE_MAGIC_R {
        damage = damage - weapon_part as i64;
    }
    if warrior {
        damage = damage / 2;
        if at_player && ctx.target_ac_amount < 100 {
            damage = damage + damage * 30 / 100;
        }
    }
    if at_player {
        damage = damage / 3;
    }
    let taken: i64 = -damage;
    if taken < 0 {
        0
    } else if taken > MAX_DAMAGE as i64 {
        MAX_DAMAGE as i16
    } else {
        taken as i16
    }
}

/// What those stages of a spell's damage give that compute with fractions.
#[derive(Clone, Copy, Debug)]
pub struct MagicStages {
    /// The base damage at a mage's charisma; it does not count for other classes.
    pub charmed_hit: i32,
    /// The blend of the damage that resistance leaves with the rolled part.
    pub blended: i32,
    /// What the caster's weapon adds.
    pub weapon_part: i32,
}

/// A spell's hit before resistance: the base damage, for mages at their charisma, at the
/// caster's magic power.
pub open spec fn magic_hit(class: u16, base_damage: i32, buffs: int, stages: MagicStages) -> int {
    let hit = if mage_class(class) {
        stages.charmed_hit
    } else {
        base_damage
    };
    tdiv(hit * magic_amount(class, buffs), 100)
}

/// The damage of a spell from its base damage: a spell without any, or whose hit comes to
/// nothing, does none.
pub open spec fn magic_damage(
    class: u16,
    base_damage: i32,
    buffs: int,
    stages: MagicStages,
    ctx: MagicDamageContext,
) -> int {
    if base_damage == 0 || magic_hit(class, base_damage, buffs, stages) == 0 {
        0
    } else {
        spell_damage(
            class,
            stages.blended as int,
            magic_amount(class, buffs),
            stages.weapon_part as int,
            ctx,
        )
    }
}

/// Whether a spell's hit can be worked out in 32 bits.
pub open spec fn magic_hit_fits(
    class: u16,
    base_damage: i32,
    buffs: i32,
    stages: MagicStages,
) -> bool {
    let hit = if mage_class(class) {
        stages.charmed_hit
    } else {
        base_damage
    };
    &&& buffs <= i32::MAX - 170
    &&& i32::MIN <= hit * magic_amount(class, buffs as int) <= i32::MAX
}

/// Work out the damage of a spell from its base damage and from what the stages that compute
/// with fractions give.
pub fn compute_magic_damage(
    class: u16,
    base_damage: i32,
    buffs: i32,
    stages: &MagicStages,
    ctx: &MagicDamageContext,
) -> (r: i16)
    requires
        base_damage != 0 ==> magic_hit_fits(class, base_damage, buffs, *stages),
    ensures
        r == magic_damage(class, base_damage, buffs as int, *stages, *ctx),
{
    if base_damage == 0 {
        return 0;
    }
    let hit: i32 = if is_mage_class(class) {
        stages.charmed_hit
    } else {
        base_damage
    };
    let amount: i32 = compute_magic_amount(class, buffs);
    if scale_by_power(hit, amount) == 0 {
        return 0;
    }
    settle_spell(class, stages.blended, amount, stages.weapon_part, ctx)
}

/// Damage at a target's magic damage percentage; 100 and more change nothing.
pub open spec fn reduced_damage(damage: i16, reduction: u8) -> i16 {
    if reduction < 100 {
        let kept = tdiv(damage * reduction, 100);
        (if kept > 0 { kept } else { 0 }) as i16
    } else {
        damage
    }
}

/// Apply a target's magic damage percentage.
pub fn apply_magic_damage_reduction(damage: i16, reduction: u8) -> (r: i16)
    ensures
        r == reduced_damage(damage, reduction),
{
    if reduction < 100 {
        assert(-32768 * 100 <= damage * reduction <= 32767 * 100) by (nonlinear_arith)
            requires
                -32768 <= damage <= 32767,
                0 <= reduction <= 100,
        ;
        let kept: i32 = (damage as i32) * (reduction as i32) / 100;
        kept.max(0) as i16
    } else {
        damage
    }
}

/// What set items add to magic between players.
#[derive(Clone, Copy, Debug)]
pub struct ClassBonusStats {
    pub attack_amount: i32,
    pub player_attack_amount: i32,
    pub ac_class_bonus: [u8; 4],
    pub ap_class_bonus: [u8; 4],
}

/// The factor, in percent, by which a non-mage's spell is changed: attack power with the
/// caster's bonus against the target's class, over armor with the target's bonus against the
/// caster's class.
pub open spec fn class_factor(
    caster_group: int,
    strength: u8,
    caster: ClassBonusStats,
    target_group: int,
    stamina: u8,
    target: ClassBonusStats,
) -> int {
    let hit = (if strength > 1 { strength as int } else { 1 }) * 3;
    let power = tdiv(tdiv(hit * caster.attack_amount, 5) * caster.player_attack_amount, 100);
    let ap = tdiv(power * (100 + caster.ap_class_bonus@[target_group]), 100);
    let armor = (if stamina > 1 { stamina as int } else { 1 }) * 2;
    let ac = tdiv(armor * (100 + target.ac_class_bonus@[caster_group]), 100);
    tdiv(ap * 2, ac + 240)
}

/// Whether the factor can be worked out in 32 bits.
pub open spec fn factor_fits(strength: u8, caster: ClassBonusStats, target_group: int) -> bool {
    let hit = (if strength > 1 { strength as int } else { 1 }) * 3;
    let base = tdiv(hit * caster.attack_amount, 5);
    let power = tdiv(base * caster.player_attack_amount, 100);
    let raised = power * (100 + caster.ap_class_bonus@[target_group]);
    &&& i32::MIN <= hit * caster.attack_amount <= i32::MAX
    &&& i32::MIN <= base * caster.player_attack_amount <= i32::MAX
    &&& i32::MIN <= raised <= i32::MAX
    &&& i32::MIN <= tdiv(raised, 100) * 2 <= i32::MAX
}

/// The factor by which a spell between players is changed, or `None` where it is not: for
/// mages, for Kurians on either side, where a side's set items are unknown, and where the
/// factor is not positive.
pub fn magic_class_factor(
    caster_class: u16,
    strength: u8,
    caster: &Option<ClassBonusStats>,
    target_class: u16,
    stamina: u8,
    target: &Option<ClassBonusStats>,
) -> (r: Option<i32>)
    requires
        *caster is Some && class_group(target_class) is Some ==> factor_fits(
            strength,
            caster->0,
            class_group(target_class)->0,
        ),
    ensures
        ({
            let applies = !mage_class(caster_class) && class_group(caster_class) is Some
                && class_group(target_class) is Some && *caster is Some && *target is Some;
            let factor = class_factor(
                class_group(caster_class)->0,
                strength,
                caster->0,
                class_group(target_class)->0,
                stamina,
                target->0,
            );
            match r {
                Some(f) => applies && f == factor && f > 0,
                None => !applies || factor <= 0,
            }
        }),
        caster_class % 100 == 3 || caster_class % 100 == 9 || caster_class % 100 == 10 ==> r is None,
        caster_class % 100 >= 13 || target_class % 100 >= 13 ==> r is None,
        *caster is None || *target is None ==> r is None,
{
    if is_mage_class(caster_class) {
        return None;
    }
    let caster_idx: usize = match class_group_index(caster_class) {
        Some(i) => i,
        None => {
            return None;
        },
    };
    let target_idx: usize = match class_group_index(target_class) {
        Some(i) => i,
        None => {
            return None;
        },
    };
    let c: ClassBonusStats = match caster {
        Some(s) => *s,
        None => {
            return None;
        },
    };
    let t: ClassBonusStats = match target {
        Some(s) => *s,
        None => {
            return None;
        },
    };
    let hit: i32 = strength.max(1) as i32 * 3;
    let base: i32 = hit * c.attack_amount / 5;
    let power: i32 = base * c.player_attack_amount / 100;
    let ap_percent: i32 = 100 + c.ap_class_bonus[target_idx] as i32;
    let ap: i32 = power * ap_percent / 100;
    let armor: i32 = stamina.max(1) as i32 * 2;
    let ac_percent: i32 = 100 + t.ac_class_bonus[caster_idx] as i32;
    assert(0 <= armor * ac_percent <= 510 * 355) by (nonlinear_arith)
        requires
            0 <= armor <= 510,
            0 <= ac_percent <= 355,
    ;
    let ac: i32 = armor * ac_percent / 100;
    proof {
        crate::arith::lemma_tdiv_shrinks(ap * 2, ac + 240);
    }
    let factor: i32 = (ap * 2) / (ac + 240);
    if factor <= 0 {
        None
    } else {
        Some(factor)
    }
}

/// The damage of a spell between players once its class factor has been worked in. `scaled`
/// is the damage at the factor's percentage; it counts only where there is a factor, and is at
/// least 1.
pub open spec fn class_damage(damage: i16, factor: Option<i32>, scaled: i32) -> i16 {
    match factor {
        Some(_) => max_of(scaled as int, 1) as i16,
        None => damage,
    }
}

/// Work a spell's class factor into its damage between players.
pub fn apply_magic_class_bonus(damage: i16, factor: Option<i32>, scaled: i32) -> (r: i16)
    ensures
        r == class_damage(damage, factor, scaled),
{
    match factor {
        Some(_) => scaled.max(1) as i16,
        None => damage,
    }
}

/// Whatever goes into a spell, its damage lies between 0 and the maximum.
pub proof fn law_spell_damage_is_bounded(
    class: u16,
    blended: int,
    amount: int,
    weapon_part: int,
    ctx: MagicDamageContext,
)
    ensures
        0 <= spell_damage(class, blended, amount, weapon_part, ctx) <= MAX_DAMAGE,
{
}

/// A warrior's spell does nothing to an NPC but for the weapon's share.
pub proof fn law_warrior_spells_at_npcs(
    class: u16,
    blended: int,
    amount: int,
    ctx: MagicDamageContext,
)
    requires
        warrior_class(class),
        ctx.target_kind == MagicTargetKind::Npc,
    ensures
        spell_damage(class, blended, amount, 0, ctx) == 0,
{
}

/// Pure magic takes nothing from the weapon.
pub proof fn law_pure_magic_ignores_the_weapon(
    class: u16,
    blended: int,
    amount: int,
    weapon_part: int,
    ctx: MagicDamageContext,
)
    requires
        ctx.attribute == ATTRIBUTE_MAGIC_R,
    ensures
        spell_damage(class, blended, amount, weapon_part, ctx) == spell_damage(
            class,
            blended,
            amount,
            0,
            ctx,
        ),
{
}

/// A stronger weapon never weakens a spell.
pub proof fn law_weapons_strengthen_spells(
    class: u16,
    blended: int,
    amount: int,
    weaker: int,
    stronger: int,
    ctx: MagicDamageContext,
)
    requires
        weaker <= stronger,
    ensures
        spell_damage(class, blended, amount, weaker, ctx) <= spell_damage(
            class,
            blended,
            amount,
            stronger,
            ctx,
        ),
{
}

/// Whether the target stands in a war zone does not change a spell's damage.
pub proof fn law_war_zones_do_not_matter(
    class: u16,
    blended: int,
    amount: int,
    weapon_part: int,
    ctx: MagicDamageContext,
)
    ensures
        spell_damage(class, blended, amount, weapon_part, ctx) == spell_damage(
            class,
            blended,
            amount,
            weapon_part,
            MagicDamageContext { is_war_zone: !ctx.is_war_zone, ..ctx },
        ),
{
}

/// The damage of a spell from its base damage lies between 0 and the maximum, is 0 where there
/// is no base damage, does not depend on whether the target stands in a war zone, and for pure
/// magic not on the weapon either.
pub proof fn law_magic_damage(
    class: u16,
    base_damage: i32,
    buffs: int,
    stages: MagicStages,
    ctx: MagicDamageContext,
    weapon_part: i32,
    righthand_damage: i16,
    attribute_damage: i16,
)
    ensures
        0 <= magic_damage(class, base_damage, buffs, stages, ctx) <= MAX_DAMAGE,
        base_damage == 0 ==> magic_damage(class, base_damage, buffs, stages, ctx) == 0,
        magic_damage(class, base_damage, buffs, stages, ctx) == magic_damage(
            class,
            base_damage,
            buffs,
            stages,
            MagicDamageContext { is_war_zone: !ctx.is_war_zone, ..ctx },
        ),
        ctx.attribute == ATTRIBUTE_MAGIC_R ==> magic_damage(
            class,
            base_damage,
            buffs,
            stages,
            ctx,
        ) == magic_damage(
            class,
            base_damage,
            buffs,
            MagicStages { weapon_part, ..stages },
            MagicDamageContext { righthand_damage, attribute_damage, ..ctx },
        ),
{
}

/// More resistance never means more damage.
pub proof fn law_resistance_protects(total_hit: int, r_low: int, r_high: int)
    requires
        total_hit <= 0,
        -510 < r_low <= r_high,
    ensures
        resisted(total_hit, r_low) <= resisted(total_hit, r_high) <= 0,
{
    vstd::arithmetic::div_mod::lemma_div_is_ordered_by_denominator(
        485 * -total_hit,
        r_low + 510,
        r_high + 510,
    );
    vstd::arithmetic::div_mod::lemma_div_pos_is_pos(485 * -total_hit, r_high + 510);
}

/// A damage percentage never adds damage, and one of 0 leaves none.
pub proof fn law_reduction_never_adds(damage: i16, reduction: u8)
    requires
        damage >= 0,
    ensures
        0 <= reduced_damage(damage, reduction) <= damage,
        reduction == 0 ==> reduced_damage(damage, reduction) == 0,
{
    assert(0 <= damage * reduction) by (nonlinear_arith)
        requires
            damage >= 0,
            reduction >= 0,
    ;
    if reduction < 100 {
        assert(damage * reduction <= damage * 100) by (nonlinear_arith)
            requires
                damage >= 0,
                reduction <= 100,
        ;
        crate::arith::lemma_tdiv_monotone(damage * reduction, damage * 100, 100);
    }
}

/// What a spell takes from a target, whatever the caster's class as long as it is no
/// warrior's: an NPC takes the magic power, the blend turned around and, but for pure magic,
/// the weapon's share; a player takes a whole third of the same. Neither takes less than
/// nothing or more than 32000.
pub proof fn law_players_take_a_third(
    class: u16,
    other_class: u16,
    blended: int,
    amount: int,
    weapon_part: int,
    at_npc: MagicDamageContext,
    at_player: MagicDamageContext,
)
    requires
        class % 100 != 1 && class % 100 != 5 && class % 100 != 6,
        other_class % 100 != 1 && other_class % 100 != 5 && other_class % 100 != 6,
        at_npc.target_kind == MagicTargetKind::Npc,
        at_player.target_kind == MagicTargetKind::Player,
        at_npc.attribute == at_player.attribute,
    ensures
        ({
            let raw = amount - blended + (if at_npc.attribute == 4 {
                0
            } else {
                weapon_part
            });
            let npc = spell_damage(class, blended, amount, weapon_part, at_npc);
            let player = spell_damage(class, blended, amount, weapon_part, at_player);
            &&& raw <= 0 ==> npc == 0
            &&& 0 <= raw <= 32000 ==> npc == raw
            &&& raw >= 32000 ==> npc == 32000
            &&& raw <= 0 ==> player == 0
            &&& 0 <= raw < 96003 ==> 3 * player <= raw < 3 * player + 3
            &&& raw >= 96000 ==> player == 32000
            &&& spell_damage(other_class, blended, amount, weapon_part, at_npc) == npc
            &&& spell_damage(other_class, blended, amount, weapon_part, at_player) == player
        }),
{
}

/// What a warrior's spell takes: of an NPC half the weapon's share and nothing else, and of a
/// player a sixth of what another class takes from an NPC, rounded down at the half and at the
/// third. A player with less than 100 armor from buffs takes three tenths of the half more.
pub proof fn law_warrior_spells(
    class: u16,
    blended: int,
    amount: int,
    weapon_part: int,
    ctx: MagicDamageContext,
)
    requires
        class % 100 == 1 || class % 100 == 5 || class % 100 == 6,
    ensures
        ({
            let weapon = if ctx.attribute == 4 {
                0
            } else {
                weapon_part
            };
            let raw = amount - blended + weapon;
            let taken = spell_damage(class, blended, amount, weapon_part, ctx);
            if ctx.target_kind == MagicTargetKind::Npc {
                &&& weapon <= 0 ==> taken == 0
                &&& 0 <= weapon < 64000 ==> 2 * taken <= weapon < 2 * taken + 2
                &&& weapon >= 64000 ==> taken == 32000
            } else if ctx.target_ac_amount >= 100 {
                &&& raw <= 0 ==> taken == 0
                &&& 0 <= raw < 192000 ==> 6 * taken <= raw < 6 * taken + 6
                &&& raw >= 192000 ==> taken == 32000
            } else {
                &&& raw <= 0 ==> taken == 0
                &&& 0 <= raw < 147000 ==> {
                    &&& 60 * taken <= 13 * raw
                    &&& 13 * raw < 60 * taken + 93
                }
                &&& raw >= 148000 ==> taken == 32000
            }
        }),
{
}

/// Each magic attribute from 1 to 6 meets the resistance of its own name, and no other
/// attribute meets any.
pub proof fn law_attributes_meet_their_own_resistance(r: NpcResistances, attribute: u8)
    ensures
        resistance_to(r, 1) == Some(r.fire_r),
        resistance_to(r, 2) == Some(r.cold_r),
        resistance_to(r, 3) == Some(r.lightning_r),
        resistance_to(r, 4) == Some(r.magic_r),
        resistance_to(r, 5) == Some(r.disease_r),
        resistance_to(r, 6) == Some(r.poison_r),
        resistance_to(r, attribute) is Some <==> 1 <= attribute <= 6,
{
}

/// Magic power grows with its buffs point for point, and a mage has 70 more of it than any
/// other class, which has 100 without buffs.
pub proof fn law_magic_power(class: u16, buffs: int)
    ensures
        (class % 100 == 3 || class % 100 == 9 || class % 100 == 10) ==> magic_amount(class, buffs)
            - buffs == 170,
        class % 100 != 3 && class % 100 != 9 && class % 100 != 10 ==> magic_amount(class, buffs)
            - buffs == 100,
{
}

/// Without resistance 485 parts of 510 of a spell's hit are left, and resistance adds to the
/// 510: what is left, times the resistance and 510, is 485 times the hit but for the rest of
/// the division.
pub proof fn law_resistance_has_its_weight(total_hit: int, total_r: int)
    requires
        total_hit <= 0,
        total_r > -510,
    ensures
        (-resisted(total_hit, total_r)) * (total_r + 510) <= 485 * -total_hit,
        485 * -total_hit < (1 - resisted(total_hit, total_r)) * (total_r + 510),
        resisted(-total_hit, total_r) == -resisted(total_hit, total_r),
{
    let d = total_r + 510;
    let a = 485 * -total_hit;
    vstd::arithmetic::div_mod::lemma_fundamental_div_mod(a, d);
    vstd::arithmetic::div_mod::lemma_mod_bound(a, d);
    let q = a / d;
    assert(resisted(total_hit, total_r) == -q);
    assert(d * q == q * d) by (nonlinear_arith);
    assert((1 + q) * d == q * d + d) by (nonlinear_arith);
}

/// A damage percentage below 100 leaves that many hundredths, rounded down, of damage; one of
/// 100 or more leaves all of it.
pub proof fn law_reduction_takes_its_percentage(damage: i16, reduction: u8)
    requires
        damage >= 0,
    ensures
        reduction >= 100 ==> reduced_damage(damage, reduction) == damage,
        reduction < 100 ==> 100 * reduced_damage(damage, reduction) <= damage * reduction < 100
            * reduced_damage(damage, reduction) + 100,
{
    assert(0 <= damage * reduction <= 32767 * 255) by (nonlinear_arith)
        requires
            0 <= damage <= 32767,
            0 <= reduction <= 255,
    ;
    if reduction < 100 {
        assert(damage * reduction <= damage * 100) by (nonlinear_arith)
            requires
                0 <= damage,
                reduction < 100,
        ;
    }
}

/// Only negative first damage of direct type 1 or 8, of a skill numbered below 400000, goes
/// through the formula; other damage is the row's number turned around, and a positive number
/// in the row does none.
pub proof fn law_formula_or_row(first_damage: i32, direct_type: i32, skill_id: u32)
    ensures
        uses_formula(first_damage, direct_type, skill_id) ==> first_damage < 0 && skill_id
            < 400000,
        first_damage < 0 && skill_id < 400000 ==> (uses_formula(
            first_damage,
            direct_type,
            skill_id,
        ) <==> (direct_type == 1 || direct_type == 8)),
        first_damage >= 0 ==> plain_damage(first_damage) == 0,
        -32767 <= first_damage < 0 ==> plain_damage(first_damage) + first_damage == 0,
{
}

/// Among the four classes of set items, a bonus counts only against the class on the other
/// side: no other entry of the two tables changes the factor, more strength, attack or bonus
/// never lowers it, and more stamina or bonus on the target's side never raises it.
pub proof fn law_class_bonuses_face_the_other_class(
    caster_group: int,
    strength: u8,
    caster: ClassBonusStats,
    other_caster: ClassBonusStats,
    target_group: int,
    stamina: u8,
    target: ClassBonusStats,
    other_target: ClassBonusStats,
)
    requires
        0 <= caster_group < 4,
        0 <= target_group < 4,
        caster.attack_amount == other_caster.attack_amount,
        caster.player_attack_amount == other_caster.player_attack_amount,
        caster.ap_class_bonus@[target_group] == other_caster.ap_class_bonus@[target_group],
        target.ac_class_bonus@[caster_group] == other_target.ac_class_bonus@[caster_group],
    ensures
        class_factor(caster_group, strength, caster, target_group, stamina, target)
            == class_factor(
            caster_group,
            strength,
            other_caster,
            target_group,
            stamina,
            other_target,
        ),
{
}

/// With attacks at 100 percent, the class factor is 120 for each point of strength, raised by
/// the caster's percentage, over 240 and two for each point of stamina, raised by the target's
/// percentage; strength and stamina count as at least 1.
pub proof fn law_class_factor_weighs_strength_and_stamina(
    caster_group: int,
    strength: u8,
    caster: ClassBonusStats,
    target_group: int,
    stamina: u8,
    target: ClassBonusStats,
)
    requires
        0 <= caster_group < 4,
        0 <= target_group < 4,
        caster.attack_amount == 100,
        caster.player_attack_amount == 100,
    ensures
        ({
            let str = if strength == 0 {
                1
            } else {
                strength as int
            };
            let sta = if stamina == 0 {
                1
            } else {
                stamina as int
            };
            let ap = 60 * str + 60 * str * caster.ap_class_bonus@[target_group] / 100;
            let ac = 2 * sta + 2 * sta * target.ac_class_bonus@[caster_group] / 100;
            let factor = class_factor(
                caster_group,
                strength,
                caster,
                target_group,
                stamina,
                target,
            );
            &&& factor * (ac + 240) <= 2 * ap
            &&& 2 * ap < (factor + 1) * (ac + 240)
        }),
{
    let str = if strength == 0 {
        1
    } else {
        strength as int
    };
    let sta = if stamina == 0 {
        1
    } else {
        stamina as int
    };
    let p = caster.ap_class_bonus@[target_group] as int;
    let q = target.ac_class_bonus@[caster_group] as int;
    assert(60 * str * (100 + p) == 6000 * str + 60 * str * p) by (nonlinear_arith);
    assert(2 * sta * (100 + q) == 200 * sta + 2 * sta * q) by (nonlinear_arith);
    assert(60 * str * p >= 0) by (nonlinear_arith)
        requires
            str >= 0,
            p >= 0,
    ;
    assert(2 * sta * q >= 0) by (nonlinear_arith)
        requires
            sta >= 0,
            q >= 0,
    ;
    let ap = 60 * str + 60 * str * p / 100;
    let ac = 2 * sta + 2 * sta * q / 100;
    let d = ac + 240;
    let factor = class_factor(caster_group, strength, caster, target_group, stamina, target);
    assert(str * 3 * 100 / 5 * 100 / 100 == 60 * str);
    assert((60 * str) * (100 + p) / 100 == ap);
    assert((sta * 2) * (100 + q) / 100 == ac);
    assert(factor == (ap * 2) / d);
    vstd::arithmetic::div_mod::lemma_fundamental_div_mod(ap * 2, d);
    vstd::arithmetic::div_mod::lemma_mod_bound(ap * 2, d);
    assert(d * factor == factor * d) by (nonlinear_arith);
    assert((factor + 1) * d == factor * d + d) by (nonlinear_arith);
}

/// Between players a class factor replaces the damage by the scaled one, which is never less
/// than 1; without a factor the damage stays as it was.
pub proof fn law_class_factors_replace_damage(damage: i16, factor: i32, scaled: i32)
    ensures
        class_damage(damage, None, scaled) == damage,
        1 <= scaled <= i16::MAX ==> class_damage(damage, Some(factor), scaled) == scaled,
        scaled <= 0 ==> class_damage(damage, Some(factor), scaled) == 1,
{
}

/// A spell's hit is its base damage, for mages that at their charisma, at the percentage of
/// the caster's magic power, rounded toward zero; where it is nothing, so is the damage, and
/// otherwise the damage is what the blend, the power and the weapon come to.
pub proof fn law_magic_hits_by_power(
    class: u16,
    base_damage: i32,
    buffs: int,
    stages: MagicStages,
    ctx: MagicDamageContext,
)
    requires
        buffs >= -100,
        base_damage <= 0,
        stages.charmed_hit <= 0,
    ensures
        ({
            let mage = class % 100 == 3 || class % 100 == 9 || class % 100 == 10;
            let hit = if mage {
                stages.charmed_hit as int
            } else {
                base_damage as int
            };
            let power = if mage {
                buffs + 170
            } else {
                buffs + 100
            };
            let powered = magic_hit(class, base_damage, buffs, stages);
            &&& 100 * -powered <= -hit * power < 100 * (1 - powered)
            &&& (base_damage == 0 || -hit * power < 100) ==> magic_damage(
                class,
                base_damage,
                buffs,
                stages,
                ctx,
            ) == 0
            &&& base_damage != 0 && -hit * power >= 100 ==> magic_damage(
                class,
                base_damage,
                buffs,
                stages,
                ctx,
            ) == spell_damage(class, stages.blended as int, power, stages.weapon_part as int, ctx)
        }),
{
    let mage = class % 100 == 3 || class % 100 == 9 || class % 100 == 10;
    let hit = if mage {
        stages.charmed_hit as int
    } else {
        base_damage as int
    };
    let power = if mage {
        buffs + 170
    } else {
        buffs + 100
    };
    assert(hit * power <= 0) by (nonlinear_arith)
        requires
            hit <= 0,
            power >= 0,
    ;
    assert(-hit * power == -(hit * power)) by (nonlinear_arith);
}

/// What a spell's context holds: a player's or an NPC's own resistance, the zone, the weapon's
/// damage and the attribute's, and the attribute. Only players bring a class and armor. NPCs
/// that are not known have no resistance.
pub proof fn law_what_contexts_hold(
    total: i32,
    class: u16,
    ac: i32,
    war: bool,
    hand: i16,
    extra: i16,
    attribute: u8,
    npc: NpcResistances,
)
    ensures
        ({
            let p = player_ctx(total, class, ac, war, (hand, extra), attribute);
            let n = npc_ctx(total, war, (hand, extra), attribute);
            &&& p.target_kind is Player && n.target_kind is Npc
            &&& p.target_total_r == total && n.target_total_r == total
            &&& p.target_class == class && n.target_class == 0
            &&& p.target_ac_amount == ac && n.target_ac_amount == 0
            &&& p.is_war_zone == war && n.is_war_zone == war
            &&& p.righthand_damage == hand && n.righthand_damage == hand
            &&& p.attribute_damage == extra && n.attribute_damage == extra
            &&& p.attribute == attribute && n.attribute == attribute
        }),
        npc_resistance(None, attribute) is None,
        npc_resistance(Some(npc), 1) == Some(npc.fire_r),
        npc_resistance(Some(npc), 2) == Some(npc.cold_r),
        npc_resistance(Some(npc), 3) == Some(npc.lightning_r),
        npc_resistance(Some(npc), 4) == Some(npc.magic_r),
        npc_resistance(Some(npc), 5) == Some(npc.disease_r),
        npc_resistance(Some(npc), 6) == Some(npc.poison_r),
        npc_resistance(Some(npc), attribute) is Some <==> 1 <= attribute <= 6,
{
}

} // verus!
