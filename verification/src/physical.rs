//! Melee and ranged skills: who can be struck, how hard, and area attacks around the caster.
//!
//! The damage of the bare hit comes in from outside: `hit` works it out but for its
//! floating-point steps.

use crate::arith::{max_of, or_i16, or_i32, saturating_add_i16, tdiv};
use crate::cast::{dead, is_dead};
use crate::constants::{
    AUTHORITY_GM, CHAOS_SKILL_DAMAGE, CHAOS_STRONG_SKILL, CHAOS_STRONG_SKILL_DAMAGE, NPC_BAND,
    SKILLMAGIC_FAIL_ATTACKZERO, ZONE_CHAOS_DUNGEON,
};
use crate::instance::{same_cast, MagicInstance};
use crate::npc_damage::{is_own_juraid_monument, own_juraid_monument, NpcAttacker, NpcTarget};
use crate::skills::{is_stomp_skill, stomp_skill};
use crate::tables::{MagicRow, MagicType1Row, MagicType2Row};
use crate::victim::{gm_fixed_skill_damage, overridden};
use vstd::prelude::*;

verus! {

/// What a physical skill is aimed at.
#[derive(Clone, Copy, Debug, PartialEq, Eq, Structural)]
pub enum StrikeTarget {
    /// The skill has no row of its type, or cannot be used without a target: it fails.
    Failed,
    /// The units around the caster.
    Area,
    Npc { npc_id: u32 },
    Player { sid: u16 },
}

/// What a melee skill is aimed at: without a target, at the units around the caster.
pub open spec fn type1_aim(has_row: bool, target_id: i32) -> StrikeTarget {
    if !has_row {
        StrikeTarget::Failed
    } else if target_id < 0 {
        StrikeTarget::Area
    } else if target_id < NPC_BAND {
        StrikeTarget::Player { sid: target_id as u16 }
    } else {
        StrikeTarget::Npc { npc_id: target_id as u32 }
    }
}

/// Find out what a melee skill is aimed at.
pub fn type1_target(has_row: bool, target_id: i32) -> (r: StrikeTarget)
    ensures
        r == type1_aim(has_row, target_id),
{
    if !has_row {
        StrikeTarget::Failed
    } else if target_id < 0 {
        StrikeTarget::Area
    } else if (target_id as u32) < NPC_BAND {
        StrikeTarget::Player { sid: target_id as u16 }
    } else {
        StrikeTarget::Npc { npc_id: target_id as u32 }
    }
}

/// What a ranged skill is aimed at; it needs a target.
pub open spec fn type2_aim(has_row: bool, target_id: i32) -> StrikeTarget {
    if !has_row || target_id < 0 {
        StrikeTarget::Failed
    } else if target_id < NPC_BAND {
        StrikeTarget::Player { sid: target_id as u16 }
    } else {
        StrikeTarget::Npc { npc_id: target_id as u32 }
    }
}

/// Find out what a ranged skill is aimed at.
pub fn type2_target(has_row: bool, target_id: i32) -> (r: StrikeTarget)
    ensures
        r == type2_aim(has_row, target_id),
{
    if !has_row || target_id < 0 {
        StrikeTarget::Failed
    } else if (target_id as u32) < NPC_BAND {
        StrikeTarget::Player { sid: target_id as u16 }
    } else {
        StrikeTarget::Npc { npc_id: target_id as u32 }
    }
}

/// A player whom a physical skill is aimed at.
#[derive(Clone, Copy, Debug)]
pub struct StrikeState {
    /// Whether caster and target are both still there.
    pub present: bool,
    pub res_hp_type: u8,
    pub hp: i16,
    pub blinking: bool,
    pub blocks_physical: bool,
    pub in_range: bool,
    pub hostile: bool,
    /// Whether the combat stats of both are known.
    pub stats_known: bool,
}

/// Whether a strike at a player goes through.
#[derive(Clone, Copy, Debug, PartialEq, Eq, Structural)]
pub enum StrikeGate {
    /// Someone has left; nothing happens.
    Lost,
    /// The caster is told that the skill failed.
    Failed,
    Clear,
}

/// Whether a player can be struck: not while dead, blinking, blocking, out of range or friendly.
pub open spec fn strikeable(s: StrikeState) -> bool {
    !dead(s.res_hp_type, s.hp) && !s.blinking && !s.blocks_physical && s.in_range && s.hostile
}

/// Whether a strike at a player goes through.
pub open spec fn strike_gate(s: StrikeState) -> StrikeGate {
    if !s.present {
        StrikeGate::Lost
    } else if !strikeable(s) {
        StrikeGate::Failed
    } else if !s.stats_known {
        StrikeGate::Lost
    } else {
        StrikeGate::Clear
    }
}

/// Check a strike at a player.
pub fn check_strike(s: &StrikeState) -> (r: StrikeGate)
    ensures
        r == strike_gate(*s),
{
    if !s.present {
        return StrikeGate::Lost;
    }
    if is_dead(s.res_hp_type, s.hp) || s.blinking || s.blocks_physical || !s.in_range
        || !s.hostile {
        return StrikeGate::Failed;
    }
    if !s.stats_known {
        return StrikeGate::Lost;
    }
    StrikeGate::Clear
}

/// The sum of a hit and a bonus, kept within 16 bits.
pub open spec fn boosted(base: i16, bonus: i16) -> i16 {
    let sum = base + bonus;
    (if sum > i16::MAX {
        i16::MAX as int
    } else if sum < i16::MIN {
        i16::MIN as int
    } else {
        sum
    }) as i16
}

/// Damage at a percentage; 0 stands for no change.
pub open spec fn at_percent(damage: i16, percent: int) -> i16 {
    if percent != 0 {
        tdiv(damage * percent, 100) as i16
    } else {
        damage
    }
}

/// Apply a percentage.
pub fn apply_percent(damage: i16, percent: i32) -> (r: i16)
    ensures
        r == at_percent(damage, percent as int),
{
    if percent != 0 {
        assert(-32768 * 0x8000_0000 <= damage * percent <= 32768 * 0x8000_0000)
            by (nonlinear_arith)
            requires
                -32768 <= damage <= 32767,
                -0x8000_0000 <= percent <= 0x7fff_ffff,
        ;
        let product: i64 = damage as i64 * percent as i64;
        (product / 100) as i16
    } else {
        damage
    }
}

/// Damage in the Chaos Dungeon, where every skill does a fixed amount.
pub open spec fn zone_damage(zone_id: u16, skill_id: u32, damage: i16) -> i16 {
    if zone_id == ZONE_CHAOS_DUNGEON {
        if skill_id == CHAOS_STRONG_SKILL {
            CHAOS_STRONG_SKILL_DAMAGE
        } else {
            CHAOS_SKILL_DAMAGE
        }
    } else {
        damage
    }
}

/// Apply the fixed damage of the Chaos Dungeon.
pub fn fix_zone_damage(zone_id: u16, skill_id: u32, damage: i16) -> (r: i16)
    ensures
        r == zone_damage(zone_id, skill_id, damage),
{
    if zone_id == ZONE_CHAOS_DUNGEON {
        if skill_id == CHAOS_STRONG_SKILL {
            CHAOS_STRONG_SKILL_DAMAGE
        } else {
            CHAOS_SKILL_DAMAGE
        }
    } else {
        damage
    }
}

/// The damage of a melee skill to an NPC.
pub open spec fn type1_npc(row: MagicType1Row, base: i16, zone_id: u16, skill_id: u32) -> i16 {
    let sum = boosted(base, or_i32(row.add_damage, 0) as i16);
    zone_damage(zone_id, skill_id, at_percent(sum, or_i32(row.add_dmg_perc_to_npc, 0) as int))
}

/// Work out the damage of a melee skill to an NPC.
pub fn type1_npc_damage(row: &MagicType1Row, base: i16, zone_id: u16, skill_id: u32) -> (r: i16)
    ensures
        r == type1_npc(*row, base, zone_id, skill_id),
{
    let bonus: i16 = row.add_damage.unwrap_or(0) as i16;
    let sum: i16 = saturating_add_i16(base, bonus);
    let scaled: i16 = apply_percent(sum, row.add_dmg_perc_to_npc.unwrap_or(0));
    fix_zone_damage(zone_id, skill_id, scaled)
}

/// A melee skill's bonus against players: half of it in war zones, a third elsewhere.
pub open spec fn player_bonus(add_damage: i16, war_zone: bool) -> i16 {
    if add_damage > 0 {
        tdiv(
            add_damage as int,
            if war_zone {
                2
            } else {
                3
            },
        ) as i16
    } else {
        add_damage
    }
}

/// The damage of a melee skill to a player.
pub open spec fn type1_player(
    row: MagicType1Row,
    base: i16,
    war_zone: bool,
    zone_id: u16,
    skill_id: u32,
) -> i16 {
    let sum = boosted(base, player_bonus(or_i32(row.add_damage, 0) as i16, war_zone));
    let scaled = at_percent(sum, or_i32(row.add_dmg_perc_to_user, 0) as int);
    max_of(zone_damage(zone_id, skill_id, scaled) as int, 0) as i16
}

/// Work out the damage of a melee skill to a player.
pub fn type1_player_damage(
    row: &MagicType1Row,
    base: i16,
    war_zone: bool,
    zone_id: u16,
    skill_id: u32,
) -> (r: i16)
    ensures
        r == type1_player(*row, base, war_zone, zone_id, skill_id),
{
    let mut bonus: i16 = row.add_damage.unwrap_or(0) as i16;
    if bonus > 0 {
        if war_zone {
            bonus = bonus / 2;
        } else {
            bonus = bonus / 3;
        }
    }
    let sum: i16 = saturating_add_i16(base, bonus);
    let scaled: i16 = apply_percent(sum, row.add_dmg_perc_to_user.unwrap_or(0));
    let damage: i16 = fix_zone_damage(zone_id, skill_id, scaled);
    if damage <= 0 {
        0
    } else {
        damage
    }
}

/// The damage of a ranged skill to an NPC.
pub open spec fn type2_npc(row: MagicType2Row, base: i16) -> i16 {
    at_percent(base, or_i16(row.add_dmg_perc_to_npc, 0) as int)
}

/// The damage of a ranged skill to a player.
pub open spec fn type2_player(row: MagicType2Row, base: i16) -> i16 {
    max_of(at_percent(base, or_i16(row.add_dmg_perc_to_user, 0) as int) as int, 0) as i16
}

/// Work out the damage of a ranged skill to an NPC.
pub fn type2_npc_damage(row: &MagicType2Row, base: i16) -> (r: i16)
    ensures
        r == type2_npc(*row, base),
{
    apply_percent(base, row.add_dmg_perc_to_npc.unwrap_or(0) as i32)
}

/// Work out the damage of a ranged skill to a player.
pub fn type2_player_damage(row: &MagicType2Row, base: i16) -> (r: i16)
    ensures
        r == type2_player(*row, base),
{
    let damage: i16 = apply_percent(base, row.add_dmg_perc_to_user.unwrap_or(0) as i32);
    if damage <= 0 {
        0
    } else {
        damage
    }
}

/// What the fourth data word says of a strike.
pub open spec fn strike_word(missed: bool) -> i32 {
    if missed {
        SKILLMAGIC_FAIL_ATTACKZERO
    } else {
        0i32
    }
}

/// Note the result of a melee skill in its cast: whether it did no damage.
pub fn mark_type1(m: &mut MagicInstance, damage: i16)
    ensures
        same_cast(*final(m), *old(m)),
        final(m).data@ == old(m).data@.update(3, strike_word(damage == 0)),
{
    m.data[3] = if damage == 0 {
        SKILLMAGIC_FAIL_ATTACKZERO
    } else {
        0
    };
}

/// Note the result of a ranged skill in its cast: that it was shot, and whether it did no
/// damage.
pub fn mark_type2(m: &mut MagicInstance, damage: i16)
    ensures
        same_cast(*final(m), *old(m)),
        final(m).data@ == old(m).data@.update(3, strike_word(damage == 0)).update(1, 1),
{
    m.data[3] = if damage == 0 {
        SKILLMAGIC_FAIL_ATTACKZERO
    } else {
        0
    };
    m.data[1] = 1;
}

// ---------------------------------------------------------------------------------------------
// Area attacks
// ---------------------------------------------------------------------------------------------

/// How far an area attack reaches: five units beyond the skill's range, and three more for
/// stomps. Units at this distance or further are out of reach.
pub fn area_reach(skill: &MagicRow, skill_id: u32) -> (r: i32)
    ensures
        r == or_i16(skill.range, 0) + 5 + if stomp_skill(skill_id) {
            3int
        } else {
            0
        },
        stomp_skill(skill_id) ==> r - or_i16(skill.range, 0) == 8,
        !stomp_skill(skill_id) ==> r - or_i16(skill.range, 0) == 5,
{
    let reach: i32 = skill.range.unwrap_or(0) as i32 + 5;
    if is_stomp_skill(skill_id) {
        reach + 3
    } else {
        reach
    }
}

/// A player near the caster of an area attack.
#[derive(Clone, Copy, Debug)]
pub struct AreaPlayer {
    pub sid: u16,
    pub res_hp_type: u8,
    pub hp: i16,
    pub authority: u8,
    pub nation: u8,
    pub blinking: bool,
    pub hostile: bool,
    /// Whether the player stands within the attack's reach.
    pub in_reach: bool,
    pub blocks_physical: bool,
    /// The damage of the bare hit; `None` where the player's stats are not known.
    pub base_damage: Option<i16>,
}

/// What an area attack does to a player.
#[derive(Clone, Copy, Debug, PartialEq, Eq, Structural)]
pub struct AreaHit {
    pub sid: u16,
    pub damage: i16,
    pub hp: i16,
    pub dies: bool,
    pub ends_stealth: bool,
}

/// The caster of an area attack.
#[derive(Clone, Copy, Debug)]
pub struct AreaCaster {
    pub authority: Option<u8>,
    pub nation: u8,
    pub zone_id: u16,
    pub skill_id: u32,
}

/// What an area attack does to a player, if it hits them at all. The skill's bonus counts in
/// full, unless the player blocks.
pub open spec fn area_hit(
    caster: AreaCaster,
    row: MagicType1Row,
    known: Option<MagicRow>,
    p: AreaPlayer,
) -> Option<AreaHit> {
    if dead(p.res_hp_type, p.hp) || p.authority == AUTHORITY_GM || p.blinking || !p.hostile
        || !p.in_reach || p.base_damage is None {
        None
    } else {
        let base = p.base_damage->0;
        let raw = if p.blocks_physical {
            base
        } else {
            boosted(base, or_i32(row.add_damage, 0) as i16)
        };
        let damage = overridden(
            caster.authority,
            known,
            zone_damage(caster.zone_id, caster.skill_id, raw),
        );
        if damage <= 0 {
            None
        } else {
            let hp = max_of(p.hp - damage, 0) as i16;
            Some(
                AreaHit {
                    sid: p.sid,
                    damage,
                    hp,
                    dies: hp <= 0,
                    ends_stealth: p.nation != caster.nation,
                },
            )
        }
    }
}

/// Work out what an area attack does to a player.
pub fn strike_player(
    caster: &AreaCaster,
    row: &MagicType1Row,
    known: &Option<MagicRow>,
    p: &AreaPlayer,
) -> (r: Option<AreaHit>)
    ensures
        r == area_hit(*caster, *row, *known, *p),
{
    if is_dead(p.res_hp_type, p.hp) || p.authority == AUTHORITY_GM || p.blinking || !p.hostile
        || !p.in_reach {
        return None;
    }
    let base: i16 = match p.base_damage {
        Some(d) => d,
        None => {
            return None;
        },
    };
    let raw: i16 = if p.blocks_physical {
        base
    } else {
        saturating_add_i16(base, row.add_damage.unwrap_or(0) as i16)
    };
    let fixed: i16 = fix_zone_damage(caster.zone_id, caster.skill_id, raw);
    let damage: i16 = gm_fixed_skill_damage(caster.authority, known, fixed);
    if damage <= 0 {
        return None;
    }
    let hp: i16 = (p.hp - damage).max(0);
    Some(
        AreaHit {
            sid: p.sid,
            damage,
            hp,
            dies: hp <= 0,
            ends_stealth: p.nation != caster.nation,
        },
    )
}

/// The hits of an area attack on players, in order.
pub open spec fn area_hits(
    caster: AreaCaster,
    row: MagicType1Row,
    known: Option<MagicRow>,
    players: Seq<AreaPlayer>,
) -> Seq<AreaHit>
    decreases players.len(),
{
    if players.len() == 0 {
        Seq::empty()
    } else {
        let rest = area_hits(caster, row, known, players.drop_last());
        match area_hit(caster, row, known, players.last()) {
            Some(h) => rest.push(h),
            None => rest,
        }
    }
}

/// Work out the hits of an area attack on players.
pub fn strike_players(
    caster: &AreaCaster,
    row: &MagicType1Row,
    known: &Option<MagicRow>,
    players: &Vec<AreaPlayer>,
) -> (r: Vec<AreaHit>)
    ensures
        r@ == area_hits(*caster, *row, *known, players@),
{
    let mut hits: Vec<AreaHit> = Vec::new();
    let mut i: usize = 0;
    while i < players.len()
        invariant
            i <= players.len(),
            hits@ == area_hits(*caster, *row, *known, players@.take(i as int)),
        decreases players.len() - i,
    {
        assert(players@.take(i + 1).drop_last() =~= players@.take(i as int));
        match strike_player(caster, row, known, &players[i]) {
            Some(h) => {
                hits.push(h);
            },
            None => {},
        }
        i += 1;
    }
    assert(players@.take(players@.len() as int) =~= players@);
    hits
}

/// The damage of an area attack to an NPC, before the scaling of the Manes survival event.
pub open spec fn plain_npc_damage(caster: AreaCaster, row: MagicType1Row, base: i16) -> i16 {
    zone_damage(
        caster.zone_id,
        caster.skill_id,
        boosted(base, or_i32(row.add_damage, 0) as i16),
    )
}

/// Work out the damage of an area attack to an NPC.
pub fn area_npc_damage(
    caster: &AreaCaster,
    row: &MagicType1Row,
    base: i16,
) -> (r: i16)
    ensures
        r == plain_npc_damage(*caster, *row, base),
{
    let raw: i16 = saturating_add_i16(base, row.add_damage.unwrap_or(0) as i16);
    fix_zone_damage(caster.zone_id, caster.skill_id, raw)
}

/// An NPC near the caster of an area attack.
#[derive(Clone, Copy, Debug)]
pub struct AreaNpc {
    pub npc_id: u32,
    pub npc: NpcTarget,
    pub monster: bool,
    pub in_reach: bool,
    /// The damage of the bare hit, or what a spell's damage formula gives.
    pub base_damage: i16,
    /// The damage as the survival event scales it, where it does.
    pub scaled_damage: Option<i16>,
}

/// The damage that reaches an NPC near, of an area skill that would do `plain` damage to it.
pub open spec fn reaching_damage(n: AreaNpc, plain: i16) -> i16 {
    match n.scaled_damage {
        Some(d) => d,
        None => plain,
    }
}

/// Work out the damage that reaches an NPC near.
pub fn get_reaching_damage(n: &AreaNpc, plain: i16) -> (r: i16)
    ensures
        r == reaching_damage(*n, plain),
{
    n.scaled_damage.unwrap_or(plain)
}

/// What an area attack does to an NPC.
#[derive(Clone, Copy, Debug, PartialEq, Eq, Structural)]
pub struct AreaNpcHit {
    pub npc_id: u32,
    pub damage: i16,
    pub hp: i32,
    pub dies: bool,
    /// Whether the caster's weapon wears out by the damage.
    pub wears_weapon: bool,
    /// Whether the death is told only after the attack, with the survival event's progress.
    pub deferred_death: bool,
}

/// What an area attack does to an NPC, if it hits it at all: only living monsters within reach,
/// and no monument of the caster's own nation.
pub open spec fn area_npc_hit(
    caster: AreaCaster,
    row: MagicType1Row,
    attacker: NpcAttacker,
    known: Option<MagicRow>,
    n: AreaNpc,
) -> Option<AreaNpcHit> {
    if own_juraid_monument(n.npc, attacker) || !n.monster || n.npc.hp is None || n.npc.hp->0 <= 0
        || !n.in_reach {
        None
    } else {
        let damage = overridden(
            attacker.authority,
            known,
            reaching_damage(n, plain_npc_damage(caster, row, n.base_damage)),
        );
        if damage <= 0 {
            None
        } else {
            let hp = max_of(n.npc.hp->0 - damage, 0) as i32;
            Some(
                AreaNpcHit {
                    npc_id: n.npc_id,
                    damage,
                    hp,
                    dies: hp <= 0,
                    wears_weapon: !n.npc.manes_survival,
                    deferred_death: hp <= 0 && n.npc.manes_survival,
                },
            )
        }
    }
}

/// Work out what an area attack does to an NPC.
pub fn strike_npc(
    caster: &AreaCaster,
    row: &MagicType1Row,
    attacker: &NpcAttacker,
    known: &Option<MagicRow>,
    n: &AreaNpc,
) -> (r: Option<AreaNpcHit>)
    ensures
        r == area_npc_hit(*caster, *row, *attacker, *known, *n),
{
    if is_own_juraid_monument(&n.npc, attacker) || !n.monster || !n.in_reach {
        return None;
    }
    let hp: i32 = n.npc.hp.unwrap_or(0);
    if hp <= 0 {
        return None;
    }
    let plain: i16 = area_npc_damage(caster, row, n.base_damage);
    let reaching: i16 = get_reaching_damage(n, plain);
    let damage: i16 = gm_fixed_skill_damage(attacker.authority, known, reaching);
    if damage <= 0 {
        return None;
    }
    let left: i32 = (hp - damage as i32).max(0);
    Some(
        AreaNpcHit {
            npc_id: n.npc_id,
            damage,
            hp: left,
            dies: left <= 0,
            wears_weapon: !n.npc.manes_survival,
            deferred_death: left <= 0 && n.npc.manes_survival,
        },
    )
}

/// The hits of an area attack on NPCs, in order.
pub open spec fn area_npc_hits(
    caster: AreaCaster,
    row: MagicType1Row,
    attacker: NpcAttacker,
    known: Option<MagicRow>,
    npcs: Seq<AreaNpc>,
) -> Seq<AreaNpcHit>
    decreases npcs.len(),
{
    if npcs.len() == 0 {
        Seq::empty()
    } else {
        let rest = area_npc_hits(caster, row, attacker, known, npcs.drop_last());
        match area_npc_hit(caster, row, attacker, known, npcs.last()) {
            Some(h) => rest.push(h),
            None => rest,
        }
    }
}

/// Work out the hits of an area attack on NPCs.
pub fn strike_npcs(
    caster: &AreaCaster,
    row: &MagicType1Row,
    attacker: &NpcAttacker,
    known: &Option<MagicRow>,
    npcs: &Vec<AreaNpc>,
) -> (r: Vec<AreaNpcHit>)
    ensures
        r@ == area_npc_hits(*caster, *row, *attacker, *known, npcs@),
{
    let mut hits: Vec<AreaNpcHit> = Vec::new();
    let mut i: usize = 0;
    while i < npcs.len()
        invariant
            i <= npcs.len(),
            hits@ == area_npc_hits(*caster, *row, *attacker, *known, npcs@.take(i as int)),
        decreases npcs.len() - i,
    {
        assert(npcs@.take(i + 1).drop_last() =~= npcs@.take(i as int));
        match strike_npc(caster, row, attacker, known, &npcs[i]) {
            Some(h) => {
                hits.push(h);
            },
            None => {},
        }
        i += 1;
    }
    assert(npcs@.take(npcs@.len() as int) =~= npcs@);
    hits
}

/// Note the result of an area attack in its cast: that it was one, and whether it hit nobody.
pub fn mark_area(m: &mut MagicInstance, any_hit: bool)
    ensures
        same_cast(*final(m), *old(m)),
        final(m).data@ == old(m).data@.update(1, 1).update(3, strike_word(!any_hit)),
{
    m.data[1] = 1;
    m.data[3] = if !any_hit {
        SKILLMAGIC_FAIL_ATTACKZERO
    } else {
        0
    };
}

/// An area attack hits only living players whom the caster may attack, never a game master,
/// and every hit does damage.
pub proof fn law_area_spares_the_protected(
    caster: AreaCaster,
    row: MagicType1Row,
    known: Option<MagicRow>,
    p: AreaPlayer,
)
    requires
        area_hit(caster, row, known, p) is Some,
    ensures
        !dead(p.res_hp_type, p.hp),
        p.authority != AUTHORITY_GM,
        p.hostile,
        p.in_reach,
        !p.blinking,
        area_hit(caster, row, known, p)->0.damage > 0,
        0 <= area_hit(caster, row, known, p)->0.hp < p.hp,
{
}

/// Whether the hits come each from a player of its own: `from` names, in order, the players
/// that the hits are on, each of them once.
pub open spec fn hits_come_from(
    caster: AreaCaster,
    row: MagicType1Row,
    known: Option<MagicRow>,
    players: Seq<AreaPlayer>,
    hits: Seq<AreaHit>,
    from: Seq<int>,
) -> bool {
    &&& from.len() == hits.len()
    &&& forall|i: int| 0 <= i < from.len() ==> 0 <= #[trigger] from[i] < players.len()
    &&& forall|i: int, j: int| 0 <= i < j < from.len() ==> #[trigger] from[i] < #[trigger] from[j]
    &&& forall|i: int|
        0 <= i < from.len() ==> area_hit(caster, row, known, players[#[trigger] from[i]]) == Some(
            hits[i],
        )
}

/// Whether players have numbers of their own.
pub open spec fn players_differ(players: Seq<AreaPlayer>) -> bool {
    forall|i: int, j: int|
        0 <= i < j < players.len() ==> #[trigger] players[i].sid != #[trigger] players[j].sid
}

/// Whether hits are on players of numbers of their own.
pub open spec fn hits_differ(hits: Seq<AreaHit>) -> bool {
    forall|i: int, j: int|
        0 <= i < j < hits.len() ==> #[trigger] hits[i].sid != #[trigger] hits[j].sid
}

/// Nobody is hit twice: each hit of an area attack comes from a player near the caster of its
/// own, so that players with numbers of their own are hit under each number at most once. And
/// nobody is passed over: every player whom the attack hits has a hit.
pub proof fn law_area_hits_once(
    caster: AreaCaster,
    row: MagicType1Row,
    known: Option<MagicRow>,
    players: Seq<AreaPlayer>,
)
    ensures
        exists|from: Seq<int>|
            hits_come_from(
                caster,
                row,
                known,
                players,
                area_hits(caster, row, known, players),
                from,
            ),
        players_differ(players) ==> hits_differ(area_hits(caster, row, known, players)),
        forall|k: int|
            0 <= k < players.len() && area_hit(caster, row, known, #[trigger] players[k]) is Some
                ==> area_hits(caster, row, known, players).contains(
                area_hit(caster, row, known, players[k])->0,
            ),
    decreases players.len(),
{
    let hits = area_hits(caster, row, known, players);
    if players.len() == 0 {
        assert(hits_come_from(caster, row, known, players, hits, Seq::<int>::empty()));
    } else {
        let before = players.drop_last();
        let rest = area_hits(caster, row, known, before);
        law_area_hits_once(caster, row, known, before);
        let from = choose|from: Seq<int>|
            hits_come_from(caster, row, known, before, rest, from);
        match area_hit(caster, row, known, players.last()) {
            Some(h) => {
                let more = from.push(players.len() - 1);
                assert(hits_come_from(caster, row, known, players, hits, more));
                assert(hits[rest.len() as int] == h);
            },
            None => {
                assert(hits_come_from(caster, row, known, players, hits, from));
            },
        }
        assert forall|k: int|
            0 <= k < players.len() && area_hit(
                caster,
                row,
                known,
                #[trigger] players[k],
            ) is Some implies hits.contains(area_hit(caster, row, known, players[k])->0) by {
            if k < before.len() {
                let h = area_hit(caster, row, known, before[k])->0;
                let i = choose|i: int| 0 <= i < rest.len() && rest[i] == h;
                assert(hits[i] == h);
            }
        }
    }
    let from = choose|from: Seq<int>| hits_come_from(caster, row, known, players, hits, from);
    assert forall|i: int, j: int|
        players_differ(players) && 0 <= i < j < hits.len() implies #[trigger] hits[i].sid
        != #[trigger] hits[j].sid by {
        assert(from[i] < from[j]);
        assert(players[from[i]].sid != players[from[j]].sid);
    }
}

/// In the Chaos Dungeon a melee skill does a fixed amount, whatever its row says.
pub proof fn law_chaos_damage_is_fixed(
    row: MagicType1Row,
    base: i16,
    war_zone: bool,
    skill_id: u32,
)
    ensures
        ({
            let fixed = if skill_id == CHAOS_STRONG_SKILL {
                1000int
            } else {
                100
            };
            &&& type1_npc(row, base, ZONE_CHAOS_DUNGEON, skill_id) == fixed
            &&& type1_player(row, base, war_zone, ZONE_CHAOS_DUNGEON, skill_id) == fixed
        }),
{
}

/// In peace a melee skill's bonus counts for no more against players than in war, and in war
/// for no more than against NPCs.
pub proof fn law_bonus_shrinks_against_players(add_damage: i16)
    requires
        add_damage >= 0,
    ensures
        0 <= player_bonus(add_damage, false) <= player_bonus(add_damage, true) <= add_damage,
{
}

/// Whom skills are aimed at: ids from 0 to 9999 are players, higher ones NPCs. Without a target
/// melee goes to all around, and archery nowhere.
pub proof fn law_whom_skills_are_aimed_at(target_id: i32)
    ensures
        ({
            let melee = type1_aim(true, target_id);
            let ranged = type2_aim(true, target_id);
            &&& target_id < 0 ==> melee is Area && ranged is Failed
            &&& target_id >= 0 ==> melee == ranged
            &&& match melee {
                StrikeTarget::Player { sid } => 0 <= target_id <= 9999 && sid == target_id,
                StrikeTarget::Npc { npc_id } => target_id >= 10000 && npc_id == target_id,
                StrikeTarget::Area => target_id < 0,
                StrikeTarget::Failed => false,
            }
            &&& type1_aim(false, target_id) is Failed
            &&& type2_aim(false, target_id) is Failed
        }),
{
}

/// A strike at a player is cleared only where everyone is there and known, and the target
/// lives, is seen and reached, is an enemy and does not block; it fails where the target is the
/// reason, and is lost where someone is missing.
pub proof fn law_strikes_at_players(s: StrikeState)
    ensures
        ({
            let open = s.res_hp_type != 3 && s.hp > 0 && !s.blinking && !s.blocks_physical
                && s.in_range && s.hostile;
            &&& strike_gate(s) is Clear <==> s.present && s.stats_known && open
            &&& strike_gate(s) is Failed <==> s.present && !open
            &&& strike_gate(s) is Lost <==> !s.present || (open && !s.stats_known)
        }),
{
}

/// A percentage takes its hundredths of damage, rounded down; 0 changes nothing. A bonus counts
/// point for point as long as the sum fits.
pub proof fn law_percentages_and_bonuses(damage: i16, percent: int, bonus: i16)
    requires
        damage >= 0,
        percent >= 0,
        damage * percent <= 3276799,
    ensures
        percent == 0 ==> at_percent(damage, percent) == damage,
        percent != 0 ==> 100 * at_percent(damage, percent) <= damage * percent < 100 * at_percent(
            damage,
            percent,
        ) + 100,
        -32768 <= damage + bonus <= 32767 ==> boosted(damage, bonus) - damage == bonus,
        damage + bonus > 32767 ==> boosted(damage, bonus) == 32767,
{
    assert(0 <= damage * percent) by (nonlinear_arith)
        requires
            0 <= damage,
            0 <= percent,
    ;
}

/// Against a player half of a melee skill's bonus counts in war, a third of it in peace, both
/// rounded down; a malus counts in full.
pub proof fn law_bonuses_against_players(add_damage: i16)
    ensures
        add_damage > 0 ==> 2 * player_bonus(add_damage, true) <= add_damage <= 2 * player_bonus(
            add_damage,
            true,
        ) + 1,
        add_damage > 0 ==> 3 * player_bonus(add_damage, false) <= add_damage <= 3 * player_bonus(
            add_damage,
            false,
        ) + 2,
        add_damage <= 0 ==> player_bonus(add_damage, true) == add_damage,
        add_damage <= 0 ==> player_bonus(add_damage, false) == add_damage,
{
}

/// Melee damage is the bare hit and the row's bonus, at the row's percentage for the side that
/// is hit: the whole bonus against NPCs, half or a third of it against players, whom nothing
/// heals. In zone 85 every skill does 100 and the strong one 1000 instead.
pub proof fn law_melee_damage(
    row: MagicType1Row,
    base: i16,
    war_zone: bool,
    zone_id: u16,
    skill_id: u32,
)
    requires
        0 <= base,
        0 <= or_i32(row.add_damage, 0) <= 32767 - base,
        0 <= or_i32(row.add_dmg_perc_to_npc, 0),
        0 <= or_i32(row.add_dmg_perc_to_user, 0),
        (base + or_i32(row.add_damage, 0)) * or_i32(row.add_dmg_perc_to_npc, 0) <= 3276799,
        (base + or_i32(row.add_damage, 0)) * or_i32(row.add_dmg_perc_to_user, 0) <= 3276799,
    ensures
        ({
            let add = or_i32(row.add_damage, 0);
            let npc = type1_npc(row, base, zone_id, skill_id);
            let player = type1_player(row, base, war_zone, zone_id, skill_id);
            let part = if war_zone {
                add / 2
            } else {
                add / 3
            };
            &&& zone_id == 85 && skill_id == 490226 ==> npc == 1000 && player == 1000
            &&& zone_id == 85 && skill_id != 490226 ==> npc == 100 && player == 100
            &&& zone_id != 85 ==> is_at_percent(npc as int, base + add, row.add_dmg_perc_to_npc)
            &&& zone_id != 85 ==> is_at_percent(
                player as int,
                base + part,
                row.add_dmg_perc_to_user,
            )
        }),
{
    let add = or_i32(row.add_damage, 0);
    let part = if war_zone {
        add / 2
    } else {
        add / 3
    };
    let at_player = or_i32(row.add_dmg_perc_to_user, 0);
    assert((base + part) * at_player <= (base + add) * at_player) by (nonlinear_arith)
        requires
            part <= add,
            0 <= at_player,
    ;
    assert(boosted(base, add as i16) == base + add);
    assert(boosted(base, player_bonus(add as i16, war_zone)) == base + part);
    lemma_at_percent(boosted(base, add as i16), row.add_dmg_perc_to_npc);
    lemma_at_percent(
        boosted(base, player_bonus(add as i16, war_zone)),
        row.add_dmg_perc_to_user,
    );
}

/// Whether damage is the whole at a column's percentage, rounded down; an empty column and one
/// of 0 leave the whole.
pub open spec fn is_at_percent(damage: int, whole: int, column: Option<i32>) -> bool {
    match column {
        None => damage == whole,
        Some(p) => if p == 0 {
            damage == whole
        } else {
            100 * damage <= whole * p < 100 * damage + 100
        },
    }
}

/// Damage at a column's percentage.
proof fn lemma_at_percent(whole: i16, column: Option<i32>)
    requires
        whole >= 0,
        0 <= or_i32(column, 0),
        whole * or_i32(column, 0) <= 3276799,
    ensures
        is_at_percent(at_percent(whole, or_i32(column, 0) as int) as int, whole as int, column),
        at_percent(whole, or_i32(column, 0) as int) >= 0,
{
    law_percentages_and_bonuses(whole, or_i32(column, 0) as int, 0);
    assert(0 <= whole * or_i32(column, 0)) by (nonlinear_arith)
        requires
            0 <= whole,
            0 <= or_i32(column, 0),
    ;
}

/// Archery damage is the bare hit at the row's percentage for the side that is hit, and never
/// heals a player.
pub proof fn law_archery_damage(row: MagicType2Row, base: i16)
    requires
        0 <= or_i16(row.add_dmg_perc_to_npc, 0),
        0 <= or_i16(row.add_dmg_perc_to_user, 0),
        -3276800 <= base * or_i16(row.add_dmg_perc_to_npc, 0) <= 3276799,
        -3276800 <= base * or_i16(row.add_dmg_perc_to_user, 0) <= 3276799,
    ensures
        base >= 0 ==> {
            let at_npc = or_i16(row.add_dmg_perc_to_npc, 0);
            let at_player = or_i16(row.add_dmg_perc_to_user, 0);
            let npc = type2_npc(row, base);
            let player = type2_player(row, base);
            &&& at_npc == 0 ==> npc == base
            &&& at_npc != 0 ==> 100 * npc <= base * at_npc < 100 * npc + 100
            &&& at_player == 0 ==> player == base
            &&& at_player != 0 ==> 100 * player <= base * at_player < 100 * player + 100
        },
        base < 0 ==> type2_player(row, base) == 0,
{
    let at_player = or_i16(row.add_dmg_perc_to_user, 0) as int;
    if base >= 0 {
        law_percentages_and_bonuses(base, or_i16(row.add_dmg_perc_to_npc, 0) as int, 0);
        law_percentages_and_bonuses(base, at_player, 0);
    } else {
        assert(base * at_player <= 0) by (nonlinear_arith)
            requires
                base < 0,
                0 <= at_player,
        ;
        assert(at_player != 0 ==> tdiv(base * at_player, 100) <= 0);
    }
}

/// A strike without damage is told as -104, any other as 0.
pub proof fn law_misses_are_told(missed: bool)
    ensures
        strike_word(true) == -104,
        strike_word(false) == 0,
{
}

/// What an area attack does to a player it hits: the bare hit, and the row's whole bonus unless
/// they block, taken off their health down to nothing. A game master's attack does 30000 unless
/// it is a spell, and in zone 85 the fixed amounts count. The hit goes to that very player, and
/// ends the stealth of players of another nation alone.
pub proof fn law_area_attacks_on_players(
    caster: AreaCaster,
    row: MagicType1Row,
    known: Option<MagicRow>,
    p: AreaPlayer,
)
    requires
        p.base_damage is Some ==> 0 <= p.base_damage->0 <= 16000,
        0 <= or_i32(row.add_damage, 0) <= 16000,
    ensures
        ({
            let reached = p.res_hp_type != 3 && p.hp > 0 && p.authority != 0 && !p.blinking
                && p.hostile && p.in_reach && p.base_damage is Some;
            let spell = known is Some && (known->0.type1 == Some(3i16) || known->0.type2 == Some(
                3i16,
            ));
            let own = p.base_damage->0 + (if p.blocks_physical {
                0
            } else {
                or_i32(row.add_damage, 0)
            });
            let damage = if caster.authority == Some(0u8) && !spell {
                30000
            } else if caster.zone_id != 85 {
                own
            } else if caster.skill_id == 490226 {
                1000
            } else {
                100
            };
            match area_hit(caster, row, known, p) {
                Some(h) => {
                    &&& reached
                    &&& damage > 0
                    &&& h.sid == p.sid
                    &&& h.damage == damage
                    &&& p.hp > damage ==> h.hp == p.hp - damage && !h.dies
                    &&& p.hp <= damage ==> h.hp == 0 && h.dies
                    &&& h.ends_stealth == (p.nation != caster.nation)
                },
                None => !reached || damage <= 0,
            }
        }),
{
}

/// What an area attack does to an NPC that it hits: the bare hit and the row's bonus, or what
/// the survival event makes of it, taken off its health down to nothing. Only living monsters
/// within reach are hit, and no monument of one's own. Outside of the survival event the weapon
/// wears out; in it the death is told later.
pub proof fn law_area_attacks_on_npcs(
    caster: AreaCaster,
    row: MagicType1Row,
    attacker: NpcAttacker,
    known: Option<MagicRow>,
    n: AreaNpc,
)
    requires
        0 <= n.base_damage <= 16000,
        0 <= or_i32(row.add_damage, 0) <= 16000,
    ensures
        ({
            let own_monument = n.npc.zone_id == 87 && n.npc.juraid_monument is Some && (
            attacker.nation is None || attacker.nation == n.npc.juraid_monument);
            let reached = !own_monument && n.monster && n.in_reach && n.npc.hp is Some
                && n.npc.hp->0 > 0;
            let spell = known is Some && (known->0.type1 == Some(3i16) || known->0.type2 == Some(
                3i16,
            ));
            let damage = if attacker.authority == Some(0u8) && !spell {
                30000
            } else if n.scaled_damage is Some {
                n.scaled_damage->0 as int
            } else if caster.zone_id != 85 {
                n.base_damage + or_i32(row.add_damage, 0)
            } else if caster.skill_id == 490226 {
                1000
            } else {
                100
            };
            match area_npc_hit(caster, row, attacker, known, n) {
                Some(h) => {
                    &&& reached
                    &&& damage > 0
                    &&& h.npc_id == n.npc_id
                    &&& h.damage == damage
                    &&& n.npc.hp->0 > damage ==> h.hp == n.npc.hp->0 - damage && !h.dies
                    &&& n.npc.hp->0 <= damage ==> h.hp == 0 && h.dies
                    &&& h.wears_weapon == !n.npc.manes_survival
                    &&& h.deferred_death == (h.dies && n.npc.manes_survival)
                },
                None => !reached || damage <= 0,
            }
        }),
{
}

/// Area attacks add up: the hits on two groups are those on the first and then those on the
/// second, and a group of one has the one hit, or none.
pub proof fn law_area_attacks_add_up(
    caster: AreaCaster,
    row: MagicType1Row,
    attacker: NpcAttacker,
    known: Option<MagicRow>,
    players: Seq<AreaPlayer>,
    player: AreaPlayer,
    npcs: Seq<AreaNpc>,
    npc: AreaNpc,
)
    ensures
        area_hits(caster, row, known, Seq::empty()).len() == 0,
        area_hits(caster, row, known, players.push(player)) == area_hits(
            caster,
            row,
            known,
            players,
        ) + (match area_hit(caster, row, known, player) {
            Some(h) => seq![h],
            None => Seq::empty(),
        }),
        area_npc_hits(caster, row, attacker, known, Seq::empty()).len() == 0,
        area_npc_hits(caster, row, attacker, known, npcs.push(npc)) == area_npc_hits(
            caster,
            row,
            attacker,
            known,
            npcs,
        ) + (match area_npc_hit(caster, row, attacker, known, npc) {
            Some(h) => seq![h],
            None => Seq::empty(),
        }),
{
    assert(players.push(player).drop_last() =~= players);
    assert(npcs.push(npc).drop_last() =~= npcs);
    let a = area_hits(caster, row, known, players);
    let b = area_npc_hits(caster, row, attacker, known, npcs);
    match area_hit(caster, row, known, player) {
        Some(h) => {
            assert(a.push(h) =~= a + seq![h]);
        },
        None => {
            assert(a =~= a + Seq::<AreaHit>::empty());
        },
    }
    match area_npc_hit(caster, row, attacker, known, npc) {
        Some(h) => {
            assert(b.push(h) =~= b + seq![h]);
        },
        None => {
            assert(b =~= b + Seq::<AreaNpcHit>::empty());
        },
    }
}

/// Empty columns of a row count as 0 for its damage.
pub proof fn law_empty_columns_are_0_for_damage(
    melee: MagicType1Row,
    ranged: MagicType2Row,
    base: i16,
    war_zone: bool,
    caster: AreaCaster,
    known: Option<MagicRow>,
    p: AreaPlayer,
)
    ensures
        ({
            let f = crate::tables::filled_melee(melee);
            let g = crate::tables::filled_ranged(ranged);
            &&& type1_npc(f, base, caster.zone_id, caster.skill_id) == type1_npc(
                melee,
                base,
                caster.zone_id,
                caster.skill_id,
            )
            &&& type1_player(f, base, war_zone, caster.zone_id, caster.skill_id) == type1_player(
                melee,
                base,
                war_zone,
                caster.zone_id,
                caster.skill_id,
            )
            &&& type2_npc(g, base) == type2_npc(ranged, base)
            &&& type2_player(g, base) == type2_player(ranged, base)
            &&& plain_npc_damage(caster, f, base) == plain_npc_damage(caster, melee, base)
            &&& area_hit(caster, f, known, p) == area_hit(caster, melee, known, p)
        }),
{
}

} // verus!
