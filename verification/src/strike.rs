//! Physical skills as a whole: from the cast and what it meets to what happens.

use crate::instance::{fail_reason, same_cast, MagicInstance};
use crate::npc_damage::{
    damage_unit, is_unit_damage, unit_fits, NpcAttacker, SiegeState, Unit, UnitDamage,
};
use crate::physical::{
    area_hits, area_npc_hits, check_strike, mark_area, mark_type1, mark_type2, strike_gate,
    strike_npcs, strike_players, strike_word, type1_aim, type1_npc, type1_npc_damage,
    type1_player, type1_player_damage, type1_target, type2_aim, type2_npc, type2_npc_damage,
    type2_player, type2_player_damage, type2_target, AreaCaster, AreaHit, AreaNpc, AreaNpcHit,
    AreaPlayer, StrikeGate, StrikeState, StrikeTarget,
};
use crate::tables::{MagicRow, MagicType1Row, MagicType2Row};
use crate::victim::{
    apply_skill_damage, overridden, parts_fit, skill_damage, SkillDamage, Victim,
};
use vstd::prelude::*;

verus! {

/// What a physical skill meets. Only what the cast is aimed at needs to be filled in.
#[derive(Debug)]
pub struct StrikeScene {
    /// Whether the caster is there and their combat stats are known, and their nation.
    pub caster_present: bool,
    pub caster_stats_known: bool,
    pub nation: u8,
    pub attacker: NpcAttacker,
    pub war_zone: bool,
    pub siege: SiegeState,
    /// The skill by its number.
    pub known: Option<MagicRow>,
    /// The unit that is aimed at, and the damage of the bare hit to it.
    pub unit: Unit,
    pub unit_base_damage: i16,
    /// The player who is aimed at, and the damage of the bare hit to them.
    pub player: StrikeState,
    pub victim: Victim,
    pub player_base_damage: i16,
    /// All who are near.
    pub players: Vec<AreaPlayer>,
    pub npcs: Vec<AreaNpc>,
}

/// What a physical skill does.
#[derive(Debug)]
pub enum StrikeOutcome {
    /// Someone has left; nothing happens.
    Lost,
    /// The caster is told that the skill failed.
    Failed,
    Unit(UnitDamage),
    Player(SkillDamage),
    Area { players: Vec<AreaHit>, npcs: Vec<AreaNpcHit> },
}

impl StrikeOutcome {
    /// Whether the skill was carried out.
    pub fn lands(&self) -> (r: bool)
        ensures
            r == !(self is Lost || self is Failed),
    {
        !matches!(self, StrikeOutcome::Lost | StrikeOutcome::Failed)
    }
}

/// Whether a cast is another one with the reason of a failure in its fourth data word.
pub open spec fn failed_cast(after: MagicInstance, before: MagicInstance) -> bool {
    same_cast(after, before) && after.data@ == before.data@.update(3, fail_reason(before.opcode))
}

/// Whether a skill does nothing to a target that is not there: the cast is as it was.
pub open spec fn lost_cast(after: MagicInstance, before: MagicInstance) -> bool {
    same_cast(after, before) && after.data@ == before.data@
}

/// The caster of an area attack.
pub open spec fn caster_of(skill_id: u32, s: StrikeScene) -> AreaCaster {
    AreaCaster {
        authority: s.attacker.authority,
        nation: s.nation,
        zone_id: s.attacker.zone_id,
        skill_id,
    }
}

/// Find out who casts an area attack.
pub fn get_area_caster(skill_id: u32, s: &StrikeScene) -> (r: AreaCaster)
    ensures
        r == caster_of(skill_id, *s),
{
    AreaCaster {
        authority: s.attacker.authority,
        nation: s.nation,
        zone_id: s.attacker.zone_id,
        skill_id,
    }
}

/// Whether an area attack is carried out: its cast says that it was one and whether it hit,
/// and everyone near is hit who can be.
pub open spec fn is_area_strike(
    r: StrikeOutcome,
    after: MagicInstance,
    before: MagicInstance,
    row: MagicType1Row,
    s: StrikeScene,
) -> bool {
    match r {
        StrikeOutcome::Lost => (!s.caster_present || !s.caster_stats_known) && lost_cast(
            after,
            before,
        ),
        StrikeOutcome::Area { players, npcs } => {
            &&& s.caster_present && s.caster_stats_known
            &&& players@ == area_hits(caster_of(before.skill_id, s), row, s.known, s.players@)
            &&& npcs@ == area_npc_hits(
                caster_of(before.skill_id, s),
                row,
                s.attacker,
                s.known,
                s.npcs@,
            )
            &&& same_cast(after, before)
            &&& after.data@ == before.data@.update(1, 1).update(
                3,
                strike_word(players@.len() == 0 && npcs@.len() == 0),
            )
        },
        _ => false,
    }
}

/// Carry out an area attack.
pub fn execute_type1_aoe(m: &mut MagicInstance, row: &MagicType1Row, s: &StrikeScene) -> (r:
    StrikeOutcome)
    ensures
        is_area_strike(r, *final(m), *old(m), *row, *s),
{
    if !s.caster_present || !s.caster_stats_known {
        return StrikeOutcome::Lost;
    }
    let caster: AreaCaster = get_area_caster(m.skill_id, s);
    let players: Vec<AreaHit> = strike_players(&caster, row, &s.known, &s.players);
    let npcs: Vec<AreaNpcHit> = strike_npcs(&caster, row, &s.attacker, &s.known, &s.npcs);
    mark_area(m, players.len() > 0 || npcs.len() > 0);
    StrikeOutcome::Area { players, npcs }
}

/// Whether an outcome is that of a strike at a unit.
pub open spec fn is_unit_strike(
    r: StrikeOutcome,
    id: u32,
    after: MagicInstance,
    before: MagicInstance,
    skill: MagicRow,
    s: StrikeScene,
    damage: i16,
    data: Seq<i32>,
) -> bool {
    match r {
        StrikeOutcome::Lost => (!s.caster_present || !s.caster_stats_known) && lost_cast(
            after,
            before,
        ),
        StrikeOutcome::Unit(u) => {
            &&& s.caster_present && s.caster_stats_known
            &&& same_cast(after, before)
            &&& after.data@ == data
            &&& is_unit_damage(u, id, s.unit, s.attacker, s.siege, after, skill, s.known, damage)
        },
        _ => false,
    }
}

/// Whether an outcome is that of a strike at a player.
pub open spec fn is_player_strike(
    r: StrikeOutcome,
    after: MagicInstance,
    before: MagicInstance,
    s: StrikeScene,
    damage: i16,
    data: Seq<i32>,
) -> bool {
    match strike_gate(s.player) {
        StrikeGate::Lost => r is Lost && lost_cast(after, before),
        StrikeGate::Failed => r is Failed && failed_cast(after, before),
        StrikeGate::Clear => r == StrikeOutcome::Player(
            skill_damage(s.attacker.authority, s.known, s.victim, damage),
        ) && same_cast(after, before) && after.data@ == data,
    }
}

/// Whether the numbers of a strike stay within their types, for whom it is aimed at and where
/// it comes about.
pub open spec fn strike_fits(
    aim: StrikeTarget,
    s: StrikeScene,
    unit_damage: i16,
    player_damage: i16,
) -> bool {
    match aim {
        StrikeTarget::Npc { .. } => s.caster_present && s.caster_stats_known ==> unit_fits(
            s.unit,
            s.attacker,
            s.known,
            unit_damage,
        ),
        StrikeTarget::Player { .. } => strike_gate(s.player) is Clear ==> parts_fit(
            s.victim,
            overridden(s.attacker.authority, s.known, player_damage),
        ),
        _ => true,
    }
}

/// The damage of a melee skill to the unit that it is aimed at.
pub open spec fn type1_unit_damage(skill_id: u32, row: MagicType1Row, s: StrikeScene) -> i16 {
    type1_npc(row, s.unit_base_damage, s.attacker.zone_id, skill_id)
}

/// The damage of a melee skill to the player whom it is aimed at.
pub open spec fn type1_victim_damage(skill_id: u32, row: MagicType1Row, s: StrikeScene) -> i16 {
    type1_player(row, s.player_base_damage, s.war_zone, s.attacker.zone_id, skill_id)
}

/// Whether an outcome is that of a melee skill.
pub open spec fn is_melee_outcome(
    r: StrikeOutcome,
    after: MagicInstance,
    before: MagicInstance,
    skill: MagicRow,
    row: Option<MagicType1Row>,
    s: StrikeScene,
) -> bool {
    match type1_aim(row is Some, before.target_id) {
        StrikeTarget::Failed => r is Failed && failed_cast(after, before),
        StrikeTarget::Area => is_area_strike(r, after, before, row->0, s),
        StrikeTarget::Npc { npc_id } => is_unit_strike(
            r,
            npc_id,
            after,
            before,
            skill,
            s,
            type1_unit_damage(before.skill_id, row->0, s),
            before.data@.update(
                3,
                strike_word(type1_unit_damage(before.skill_id, row->0, s) == 0),
            ),
        ),
        StrikeTarget::Player { .. } => is_player_strike(
            r,
            after,
            before,
            s,
            type1_victim_damage(before.skill_id, row->0, s),
            before.data@.update(
                3,
                strike_word(type1_victim_damage(before.skill_id, row->0, s) == 0),
            ),
        ),
    }
}

/// Carry out a melee skill.
pub fn execute_type1(
    m: &mut MagicInstance,
    skill: &MagicRow,
    row: &Option<MagicType1Row>,
    s: &StrikeScene,
) -> (r: StrikeOutcome)
    requires
        strike_fits(
            type1_aim(row is Some, old(m).target_id),
            *s,
            type1_unit_damage(old(m).skill_id, row->0, *s),
            type1_victim_damage(old(m).skill_id, row->0, *s),
        ),
    ensures
        is_melee_outcome(r, *final(m), *old(m), *skill, *row, *s),
{
    let row: MagicType1Row = match row {
        Some(d) => *d,
        None => {
            let _packet = m.send_skill_failed();
            return StrikeOutcome::Failed;
        },
    };
    match type1_target(true, m.target_id) {
        StrikeTarget::Failed => {
            let _packet = m.send_skill_failed();
            StrikeOutcome::Failed
        },
        StrikeTarget::Area => execute_type1_aoe(m, &row, s),
        StrikeTarget::Npc { npc_id } => {
            if !s.caster_present || !s.caster_stats_known {
                return StrikeOutcome::Lost;
            }
            let damage: i16 = type1_npc_damage(
                &row,
                s.unit_base_damage,
                s.attacker.zone_id,
                m.skill_id,
            );
            mark_type1(m, damage);
            StrikeOutcome::Unit(
                damage_unit(npc_id, &s.unit, &s.attacker, &s.siege, m, skill, &s.known, damage),
            )
        },
        StrikeTarget::Player { .. } => match check_strike(&s.player) {
            StrikeGate::Lost => StrikeOutcome::Lost,
            StrikeGate::Failed => {
                let _packet = m.send_skill_failed();
                StrikeOutcome::Failed
            },
            StrikeGate::Clear => {
                let damage: i16 = type1_player_damage(
                    &row,
                    s.player_base_damage,
                    s.war_zone,
                    s.attacker.zone_id,
                    m.skill_id,
                );
                mark_type1(m, damage);
                StrikeOutcome::Player(
                    apply_skill_damage(s.attacker.authority, &s.known, &s.victim, damage),
                )
            },
        },
    }
}

/// Whether an outcome is that of a ranged skill.
pub open spec fn is_ranged_outcome(
    r: StrikeOutcome,
    after: MagicInstance,
    before: MagicInstance,
    skill: MagicRow,
    row: Option<MagicType2Row>,
    s: StrikeScene,
) -> bool {
    match type2_aim(row is Some, before.target_id) {
        StrikeTarget::Npc { npc_id } => {
            let damage = type2_npc(row->0, s.unit_base_damage);
            is_unit_strike(
                r,
                npc_id,
                after,
                before,
                skill,
                s,
                damage,
                before.data@.update(3, strike_word(damage == 0)).update(1, 1),
            )
        },
        StrikeTarget::Player { .. } => {
            let damage = type2_player(row->0, s.player_base_damage);
            is_player_strike(
                r,
                after,
                before,
                s,
                damage,
                before.data@.update(3, strike_word(damage == 0)).update(1, 1),
            )
        },
        _ => r is Failed && failed_cast(after, before),
    }
}

/// Carry out a ranged skill.
pub fn execute_type2(
    m: &mut MagicInstance,
    skill: &MagicRow,
    row: &Option<MagicType2Row>,
    s: &StrikeScene,
) -> (r: StrikeOutcome)
    requires
        strike_fits(
            type2_aim(row is Some, old(m).target_id),
            *s,
            type2_npc(row->0, s.unit_base_damage),
            type2_player(row->0, s.player_base_damage),
        ),
    ensures
        is_ranged_outcome(r, *final(m), *old(m), *skill, *row, *s),
{
    let row: MagicType2Row = match row {
        Some(d) => *d,
        None => {
            let _packet = m.send_skill_failed();
            return StrikeOutcome::Failed;
        },
    };
    match type2_target(true, m.target_id) {
        StrikeTarget::Npc { npc_id } => {
            if !s.caster_present || !s.caster_stats_known {
                return StrikeOutcome::Lost;
            }
            let damage: i16 = type2_npc_damage(&row, s.unit_base_damage);
            mark_type2(m, damage);
            StrikeOutcome::Unit(
                damage_unit(npc_id, &s.unit, &s.attacker, &s.siege, m, skill, &s.known, damage),
            )
        },
        StrikeTarget::Player { .. } => match check_strike(&s.player) {
            StrikeGate::Lost => StrikeOutcome::Lost,
            StrikeGate::Failed => {
                let _packet = m.send_skill_failed();
                StrikeOutcome::Failed
            },
            StrikeGate::Clear => {
                let damage: i16 = type2_player_damage(&row, s.player_base_damage);
                mark_type2(m, damage);
                StrikeOutcome::Player(
                    apply_skill_damage(s.attacker.authority, &s.known, &s.victim, damage),
                )
            },
        },
        _ => {
            let _packet = m.send_skill_failed();
            StrikeOutcome::Failed
        },
    }
}

/// A cast that failed says why in its fourth word alone: that it was still being cast, or that
/// it had no effect.
pub proof fn law_failed_casts_say_why(after: MagicInstance, before: MagicInstance, i: int)
    requires
        failed_cast(after, before),
        0 <= i < 7,
    ensures
        after.opcode == before.opcode && after.skill_id == before.skill_id,
        after.caster_id == before.caster_id && after.target_id == before.target_id,
        before.opcode == 1 ==> after.data@[3] == -100,
        before.opcode != 1 ==> after.data@[3] == -103,
        i != 3 ==> after.data@[i] == before.data@[i],
{
}

/// A melee skill's outcome by its target: an area attack below 0, a player below 10000, and an
/// NPC from there on; it needs a row. Its cast says in its fourth word whether it missed, an
/// area attack also marks its second, and every other word stays. A cast whose parties are gone
/// is left as it was.
pub proof fn law_melee_skills_by_target(
    r: StrikeOutcome,
    after: MagicInstance,
    before: MagicInstance,
    skill: MagicRow,
    row: Option<MagicType1Row>,
    s: StrikeScene,
    i: int,
)
    requires
        is_melee_outcome(r, after, before, skill, row, s),
        0 <= i < 7,
    ensures
        after.opcode == before.opcode && after.skill_id == before.skill_id,
        after.caster_id == before.caster_id && after.target_id == before.target_id,
        i != 1 && i != 3 ==> after.data@[i] == before.data@[i],
        !(r is Area) ==> after.data@[1] == before.data@[1],
        row is None ==> r is Failed,
        row is Some && before.target_id < 0 ==> (r is Area <==> s.caster_present
            && s.caster_stats_known) && (r is Area || r is Lost),
        row is Some && before.target_id >= 10000 ==> (r is Unit <==> s.caster_present
            && s.caster_stats_known) && (r is Unit || r is Lost),
        row is Some && 0 <= before.target_id <= 9999 ==> (r is Player || r is Failed || r is Lost),
        match r {
            StrikeOutcome::Lost => after.data@[3] == before.data@[3],
            StrikeOutcome::Failed => failed_cast(after, before),
            StrikeOutcome::Area { players, npcs } => {
                &&& after.data@[1] == 1
                &&& players@.len() + npcs@.len() > 0 ==> after.data@[3] == 0
                &&& players@.len() + npcs@.len() == 0 ==> after.data@[3] == -104
            },
            StrikeOutcome::Unit(u) => {
                let damage = type1_npc(
                    row->0,
                    s.unit_base_damage,
                    s.attacker.zone_id,
                    before.skill_id,
                );
                &&& damage == 0 ==> after.data@[3] == -104
                &&& damage != 0 ==> after.data@[3] == 0
                &&& s.unit.bot is Some <==> u is Bot
            },
            StrikeOutcome::Player(d) => {
                let damage = type1_player(
                    row->0,
                    s.player_base_damage,
                    s.war_zone,
                    s.attacker.zone_id,
                    before.skill_id,
                );
                &&& damage == 0 ==> after.data@[3] == -104
                &&& damage != 0 ==> after.data@[3] == 0
                &&& d == skill_damage(s.attacker.authority, s.known, s.victim, damage)
            },
        },
{
}

/// A ranged skill's outcome by its target: a player below 10000 and an NPC from there on; it
/// needs a row and a target. Its cast is marked in its second word, says in its fourth whether
/// it missed, and keeps every other.
pub proof fn law_ranged_skills_by_target(
    r: StrikeOutcome,
    after: MagicInstance,
    before: MagicInstance,
    skill: MagicRow,
    row: Option<MagicType2Row>,
    s: StrikeScene,
    i: int,
)
    requires
        is_ranged_outcome(r, after, before, skill, row, s),
        0 <= i < 7,
    ensures
        after.opcode == before.opcode && after.skill_id == before.skill_id,
        after.caster_id == before.caster_id && after.target_id == before.target_id,
        i != 1 && i != 3 ==> after.data@[i] == before.data@[i],
        row is None || before.target_id < 0 ==> r is Failed,
        row is Some && before.target_id >= 10000 ==> (r is Unit <==> s.caster_present
            && s.caster_stats_known) && (r is Unit || r is Lost),
        row is Some && 0 <= before.target_id <= 9999 ==> (r is Player || r is Failed || r is Lost),
        match r {
            StrikeOutcome::Lost => after.data@[1] == before.data@[1] && after.data@[3]
                == before.data@[3],
            StrikeOutcome::Failed => failed_cast(after, before),
            StrikeOutcome::Area { .. } => false,
            StrikeOutcome::Unit(u) => {
                let damage = type2_npc(row->0, s.unit_base_damage);
                &&& after.data@[1] == 1
                &&& damage == 0 ==> after.data@[3] == -104
                &&& damage != 0 ==> after.data@[3] == 0
                &&& s.unit.bot is Some <==> u is Bot
            },
            StrikeOutcome::Player(d) => {
                let damage = type2_player(row->0, s.player_base_damage);
                &&& after.data@[1] == 1
                &&& damage == 0 ==> after.data@[3] == -104
                &&& damage != 0 ==> after.data@[3] == 0
                &&& d == skill_damage(s.attacker.authority, s.known, s.victim, damage)
            },
        },
{
}

/// Which strikes at a player come about, for melee and ranged skills alike: those between two
/// who are there, at someone alive who does not blink or block weapons, is in range and may be
/// attacked, and whose stats are known. Someone gone or without stats is passed over, and all
/// else fails.
pub proof fn law_which_strikes_come_about(
    r: StrikeOutcome,
    after: MagicInstance,
    before: MagicInstance,
    skill: MagicRow,
    melee: Option<MagicType1Row>,
    ranged: Option<MagicType2Row>,
    s: StrikeScene,
)
    requires
        (melee is Some && is_melee_outcome(r, after, before, skill, melee, s)) || (ranged is Some
            && is_ranged_outcome(r, after, before, skill, ranged, s)),
        0 <= before.target_id <= 9999,
    ensures
        ({
            let p = s.player;
            let open = p.res_hp_type != 3 && p.hp > 0 && !p.blinking && !p.blocks_physical
                && p.in_range && p.hostile;
            &&& r is Player <==> p.present && open && p.stats_known
            &&& r is Failed <==> p.present && !open
            &&& r is Lost <==> !p.present || (open && !p.stats_known)
        }),
{
}

/// Whom an area attack hits is worked out for the caster's authority, nation and zone and the
/// skill that is cast, player by player and NPC by NPC.
pub proof fn law_area_strikes_hit_each(
    r: StrikeOutcome,
    after: MagicInstance,
    before: MagicInstance,
    skill: MagicRow,
    row: Option<MagicType1Row>,
    s: StrikeScene,
    c: AreaCaster,
)
    requires
        is_melee_outcome(r, after, before, skill, row, s),
        r is Area,
        c.authority == s.attacker.authority,
        c.nation == s.nation,
        c.zone_id == s.attacker.zone_id,
        c.skill_id == before.skill_id,
    ensures
        row is Some,
        match r {
            StrikeOutcome::Area { players, npcs } => {
                &&& players@ == area_hits(c, row->0, s.known, s.players@)
                &&& npcs@ == area_npc_hits(c, row->0, s.attacker, s.known, s.npcs@)
            },
            _ => false,
        },
{
}

/// What a strike does to a unit is what the skill's damage does to it, by the cast's target.
pub proof fn law_strikes_at_units(
    r: StrikeOutcome,
    after: MagicInstance,
    before: MagicInstance,
    skill: MagicRow,
    melee: Option<MagicType1Row>,
    ranged: Option<MagicType2Row>,
    s: StrikeScene,
)
    requires
        r is Unit,
    ensures
        match r {
            StrikeOutcome::Unit(u) => {
                &&& is_melee_outcome(r, after, before, skill, melee, s) ==> is_unit_damage(
                    u,
                    before.target_id as u32,
                    s.unit,
                    s.attacker,
                    s.siege,
                    after,
                    skill,
                    s.known,
                    type1_npc(melee->0, s.unit_base_damage, s.attacker.zone_id, before.skill_id),
                )
                &&& is_ranged_outcome(r, after, before, skill, ranged, s) ==> is_unit_damage(
                    u,
                    before.target_id as u32,
                    s.unit,
                    s.attacker,
                    s.siege,
                    after,
                    skill,
                    s.known,
                    type2_npc(ranged->0, s.unit_base_damage),
                )
            },
            _ => false,
        },
{
}

} // verus!
