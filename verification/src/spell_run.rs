//! Spells as a whole: from the cast and what it meets to what happens.

use crate::arith::{or_i16, or_i32};
use crate::constants::NPC_BAND;
use crate::instance::{same_cast, MagicInstance};
use crate::npc_damage::{
    damage_unit, is_unit_damage, unit_fits, NpcAttacker, SiegeState, Unit, UnitDamage,
};
use crate::physical::{apply_percent, at_percent, AreaNpc, AreaNpcHit};
use crate::spell::{apply_magic_class_bonus, class_damage};
use crate::spell_area::{
    area_bot_hits, area_caster_heal, area_row_fits, area_spell_hits, area_spell_npc_hits,
    bot_fits, harm_fits, heal_area_caster, hit_bots, hit_npcs, hit_players, npc_fits, AreaBot,
    AreaBotHit, AreaSpell, AreaSpellHit, SpellAreaPlayer,
};
use crate::spell_cast::{
    apply_heal, begin_type3, check_friend_heal, check_spell, damage_over_time, direct_effect,
    event_shields, friend_heal_ok, friend_target, heal, heal_amount, hot_fits, npc_spell, npc_spell_damage,
    plan_damage_over_time, plan_direct_effect, potion, potion_banned, potion_too_soon, spell_gate,
    type3_route, DirectEffect, Durational, FriendHealState, Heal, HealTarget, SpellGate,
    SpellTarget, Type3Gate, Type3Route, SNOW_BATTLE_DAMAGE,
};
use crate::strike::{failed_cast, lost_cast};
use crate::tables::{MagicRow, MagicType3Row};
use crate::victim::{
    apply_skill_damage, overridden, parts_fit, skill_damage, SkillDamage, Victim,
};
use vstd::prelude::*;

verus! {

/// What the caster of a spell on an area brings, besides the cast.
#[derive(Clone, Copy, Debug)]
pub struct SpellAreaCaster {
    pub class: u16,
    pub nation: u8,
    /// Whether the caster's genie fights for them.
    pub genie_active: bool,
    /// Whether the caster stands in a safety area of the enemy.
    pub in_enemy_safety: bool,
}

/// What a spell meets. Only what the cast is aimed at needs to be filled in.
#[derive(Debug)]
pub struct SpellScene {
    pub gate: Type3Gate,
    /// The skill by its number.
    pub known: Option<MagicRow>,
    /// The caster, where they are there, with their state; and whether they stand somewhere.
    pub caster_sid: u16,
    pub caster: Option<HealTarget>,
    pub caster_res_hp_type: u8,
    pub caster_placed: bool,
    pub attacker: NpcAttacker,
    pub siege: SiegeState,
    /// The friend who is aimed at.
    pub friend: FriendHealState,
    pub friend_health: HealTarget,
    /// The unit that is aimed at, and what the damage formula gives for it.
    pub unit: Unit,
    pub unit_formula: i16,
    pub unit_time_formula: i16,
    /// The player who is aimed at, and what the damage formula gives for them.
    pub target: SpellTarget,
    pub target_health: HealTarget,
    pub victim: Victim,
    pub formula: i16,
    pub time_formula: i16,
    /// The class factor between caster and player, and the damage at that factor.
    pub class_factor: Option<i32>,
    pub class_scaled: i32,
    /// The caster of an area, and all who are near.
    pub area: SpellAreaCaster,
    pub players: Vec<SpellAreaPlayer>,
    pub bots: Vec<AreaBot>,
    pub npcs: Vec<AreaNpc>,
}

/// What a spell does.
#[derive(Debug)]
pub enum SpellOutcome {
    /// Someone has left; nothing happens.
    Lost,
    /// The caster is told that the spell failed.
    Failed,
    /// The effect is shown and nothing happens.
    Shown,
    Healed { sid: u16, heal: Heal },
    Unit { hurt: UnitDamage, over_time: Option<Durational> },
    /// A player's mana changes.
    Mana { mp: i16, shown: i32 },
    Player { damage: SkillDamage, over_time: Option<Durational> },
    Area {
        players: Vec<AreaSpellHit>,
        bots: Vec<AreaBotHit>,
        caster: Option<AreaSpellHit>,
        npcs: Vec<AreaNpcHit>,
    },
}

impl SpellOutcome {
    /// Whether the spell was carried out.
    pub fn lands(&self) -> (r: bool)
        ensures
            r == !(self is Lost || self is Failed),
    {
        !matches!(self, SpellOutcome::Lost | SpellOutcome::Failed)
    }
}

/// The direct damage of a spell to the player whom it is aimed at. Damage by the formula gets
/// the row's percentage and then the class bonus.
pub open spec fn victim_damage(skill_id: u32, row: MagicType3Row, s: SpellScene) -> i16 {
    let t = s.target_health;
    match direct_effect(skill_id, row, t.hp, t.max_hp, t.mp, t.max_mp) {
        DirectEffect::Mana { .. } => 0i16,
        DirectEffect::Damage { damage } => damage,
        DirectEffect::Formula => class_damage(
            at_percent(s.formula, or_i16(row.add_dmg_perc_to_user, 0) as int),
            s.class_factor,
            s.class_scaled,
        ),
    }
}

/// A spell on an area, of a cast of a skill.
pub open spec fn area_spell_of(skill_id: u32, moral: i16, s: SpellScene) -> AreaSpell {
    AreaSpell {
        moral,
        skill_id,
        authority: s.attacker.authority,
        class: s.area.class,
        nation: s.area.nation,
        zone_id: s.attacker.zone_id,
        genie_active: s.area.genie_active,
        in_enemy_safety: s.area.in_enemy_safety,
    }
}

/// Make out the spell on an area that a cast is.
pub fn get_area_spell(skill_id: u32, moral: i16, s: &SpellScene) -> (r: AreaSpell)
    ensures
        r == area_spell_of(skill_id, moral, *s),
{
    AreaSpell {
        moral,
        skill_id,
        authority: s.attacker.authority,
        class: s.area.class,
        nation: s.area.nation,
        zone_id: s.attacker.zone_id,
        genie_active: s.area.genie_active,
        in_enemy_safety: s.area.in_enemy_safety,
    }
}

/// Whether the numbers of a spell at a unit stay within their types.
pub open spec fn unit_spell_fits(skill_id: u32, row: MagicType3Row, s: SpellScene) -> bool {
    s.caster is Some ==> harm_fits(row) && unit_fits(
        s.unit,
        s.attacker,
        s.known,
        npc_spell(skill_id, row, s.unit_formula),
    )
}

/// Whether the numbers of a spell at a player stay within their types.
pub open spec fn player_spell_fits(skill_id: u32, row: MagicType3Row, s: SpellScene) -> bool {
    match spell_gate(s.target) {
        SpellGate::Snowball => parts_fit(
            s.victim,
            overridden(s.attacker.authority, s.known, SNOW_BATTLE_DAMAGE),
        ),
        SpellGate::Clear => or_i32(row.first_damage, 0) > i32::MIN && if or_i32(
            row.direct_type,
            0,
        ) == 2 {
            s.target_health.max_mp >= 0
        } else {
            or_i32(row.time_damage, 0) > i32::MIN && parts_fit(
                s.victim,
                overridden(s.attacker.authority, s.known, victim_damage(skill_id, row, s)),
            )
        },
        _ => true,
    }
}

/// Whether the numbers of a spell on an area stay within their types.
pub open spec fn area_spell_fits(
    skill_id: u32,
    moral: i16,
    row: MagicType3Row,
    s: SpellScene,
) -> bool {
    let area = area_spell_of(skill_id, moral, s);
    s.caster_placed && s.caster is Some ==> {
        &&& area_row_fits(moral, row)
        &&& forall|i: int|
            0 <= i < s.npcs@.len() ==> npc_fits(
                area,
                row,
                s.attacker,
                s.known,
                #[trigger] s.npcs@[i],
            )
        &&& forall|i: int|
            0 <= i < s.bots@.len() ==> bot_fits(area, row, s.known, #[trigger] s.bots@[i])
    }
}

/// Whether the numbers of a spell stay within their types, for whom it is for.
pub open spec fn spell_fits(
    target_id: i32,
    skill_id: u32,
    moral: i16,
    row: MagicType3Row,
    s: SpellScene,
) -> bool {
    match type3_route(moral) {
        Type3Route::HealSelf => s.caster is Some ==> hot_fits(row),
        Type3Route::HealFriend => friend_heal_ok(moral, row, s.friend) ==> hot_fits(row),
        Type3Route::Enemy => if target_id < 0 {
            true
        } else if target_id < NPC_BAND {
            player_spell_fits(skill_id, row, s)
        } else {
            unit_spell_fits(skill_id, row, s)
        },
        Type3Route::Area => area_spell_fits(skill_id, moral, row, s),
        _ => true,
    }
}

/// Whether an outcome is that of a heal for oneself.
pub open spec fn is_self_heal(
    r: SpellOutcome,
    after: MagicInstance,
    before: MagicInstance,
    row: MagicType3Row,
    s: SpellScene,
) -> bool {
    match s.caster {
        None => r is Lost && lost_cast(after, before),
        Some(t) => {
            &&& r == SpellOutcome::Healed { sid: s.caster_sid, heal: heal(row, t) }
            &&& same_cast(after, before)
            &&& after.data@ == before.data@.update(3, heal_amount(row) as i32)
        },
    }
}

/// Heal oneself.
fn run_self_heal(m: &mut MagicInstance, row: &MagicType3Row, s: &SpellScene) -> (r: SpellOutcome)
    requires
        s.caster is Some ==> hot_fits(*row),
    ensures
        is_self_heal(r, *final(m), *old(m), *row, *s),
{
    match s.caster {
        None => SpellOutcome::Lost,
        Some(t) => {
            let healed: Heal = apply_heal(m, row, &t);
            SpellOutcome::Healed { sid: s.caster_sid, heal: healed }
        },
    }
}

/// Whether an outcome is that of a heal for a friend.
pub open spec fn is_friend_heal(
    r: SpellOutcome,
    after: MagicInstance,
    before: MagicInstance,
    moral: i16,
    row: MagicType3Row,
    s: SpellScene,
) -> bool {
    if !friend_heal_ok(moral, row, s.friend) {
        r is Failed && failed_cast(after, before)
    } else {
        let sid = if before.target_id < 0 {
            s.caster_sid
        } else {
            before.target_id as u16
        };
        &&& r == SpellOutcome::Healed { sid, heal: heal(row, s.friend_health) }
        &&& same_cast(after, before)
        &&& after.data@ == before.data@.update(3, heal_amount(row) as i32)
    }
}

/// Heal a friend.
fn run_friend_heal(m: &mut MagicInstance, moral: i16, row: &MagicType3Row, s: &SpellScene) -> (r:
    SpellOutcome)
    requires
        friend_heal_ok(moral, *row, s.friend) ==> hot_fits(*row),
    ensures
        is_friend_heal(r, *final(m), *old(m), moral, *row, *s),
{
    if !check_friend_heal(moral, row, &s.friend) {
        let _packet = m.send_skill_failed();
        return SpellOutcome::Failed;
    }
    let sid: u16 = friend_target(m.target_id, s.caster_sid);
    let healed: Heal = apply_heal(m, row, &s.friend_health);
    SpellOutcome::Healed { sid, heal: healed }
}

/// Whether an outcome is that of a spell at a unit.
pub open spec fn is_unit_spell(
    r: SpellOutcome,
    after: MagicInstance,
    before: MagicInstance,
    skill: MagicRow,
    row: MagicType3Row,
    s: SpellScene,
) -> bool {
    match r {
        SpellOutcome::Lost => s.caster is None && lost_cast(after, before),
        SpellOutcome::Unit { hurt, over_time } => {
            &&& s.caster is Some
            &&& lost_cast(after, before)
            &&& is_unit_damage(
                hurt,
                before.target_id as u32,
                s.unit,
                s.attacker,
                s.siege,
                after,
                skill,
                s.known,
                npc_spell(before.skill_id, row, s.unit_formula),
            )
            &&& over_time == damage_over_time(row, s.attacker.zone_id, s.unit_time_formula, 100)
        },
        _ => false,
    }
}

/// Cast at a unit.
fn run_unit_spell(m: &mut MagicInstance, skill: &MagicRow, row: &MagicType3Row, s: &SpellScene) -> (r:
    SpellOutcome)
    requires
        unit_spell_fits(old(m).skill_id, *row, *s),
    ensures
        is_unit_spell(r, *final(m), *old(m), *skill, *row, *s),
{
    match s.caster {
        None => {
            return SpellOutcome::Lost;
        },
        Some(_) => {},
    }
    let damage: i16 = npc_spell_damage(m.skill_id, row, s.unit_formula);
    let hurt: UnitDamage = damage_unit(
        m.target_id as u32,
        &s.unit,
        &s.attacker,
        &s.siege,
        m,
        skill,
        &s.known,
        damage,
    );
    let over_time: Option<Durational> = plan_damage_over_time(
        row,
        s.attacker.zone_id,
        s.unit_time_formula,
        100,
    );
    SpellOutcome::Unit { hurt, over_time }
}

/// Whether an outcome is that of a spell at a player.
pub open spec fn is_player_spell(
    r: SpellOutcome,
    after: MagicInstance,
    before: MagicInstance,
    row: MagicType3Row,
    s: SpellScene,
) -> bool {
    let t = s.target_health;
    match spell_gate(s.target) {
        SpellGate::Lost => r is Lost && lost_cast(after, before),
        SpellGate::Failed => r is Failed && failed_cast(after, before),
        SpellGate::Snowball => r == SpellOutcome::Player {
            damage: skill_damage(s.attacker.authority, s.known, s.victim, SNOW_BATTLE_DAMAGE),
            over_time: None,
        } && lost_cast(after, before),
        SpellGate::Clear => match direct_effect(
            before.skill_id,
            row,
            t.hp,
            t.max_hp,
            t.mp,
            t.max_mp,
        ) {
            DirectEffect::Mana { mp, shown } => {
                &&& r == SpellOutcome::Mana { mp, shown }
                &&& same_cast(after, before)
                &&& after.data@ == before.data@.update(3, or_i32(row.first_damage, 0))
            },
            _ => {
                &&& r == SpellOutcome::Player {
                    damage: skill_damage(
                        s.attacker.authority,
                        s.known,
                        s.victim,
                        victim_damage(before.skill_id, row, s),
                    ),
                    over_time: damage_over_time(
                        row,
                        s.attacker.zone_id,
                        s.time_formula,
                        s.victim.magic_damage_reduction,
                    ),
                }
                &&& lost_cast(after, before)
            },
        },
    }
}

/// Cast at a player.
fn run_player_spell(m: &mut MagicInstance, row: &MagicType3Row, s: &SpellScene) -> (r: SpellOutcome)
    requires
        player_spell_fits(old(m).skill_id, *row, *s),
    ensures
        is_player_spell(r, *final(m), *old(m), *row, *s),
{
    match check_spell(&s.target) {
        SpellGate::Lost => {
            return SpellOutcome::Lost;
        },
        SpellGate::Failed => {
            let _packet = m.send_skill_failed();
            return SpellOutcome::Failed;
        },
        SpellGate::Snowball => {
            let damage: SkillDamage = apply_skill_damage(
                s.attacker.authority,
                &s.known,
                &s.victim,
                SNOW_BATTLE_DAMAGE,
            );
            return SpellOutcome::Player { damage, over_time: None };
        },
        SpellGate::Clear => {},
    }
    let t: HealTarget = s.target_health;
    let damage: i16 = match plan_direct_effect(m, row, t.hp, t.max_hp, t.mp, t.max_mp) {
        DirectEffect::Mana { mp, shown } => {
            return SpellOutcome::Mana { mp, shown };
        },
        DirectEffect::Damage { damage } => damage,
        DirectEffect::Formula => {
            let scaled: i16 = apply_percent(
                s.formula,
                row.add_dmg_perc_to_user.unwrap_or(0) as i32,
            );
            apply_magic_class_bonus(scaled, s.class_factor, s.class_scaled)
        },
    };
    let hurt: SkillDamage = apply_skill_damage(s.attacker.authority, &s.known, &s.victim, damage);
    let over_time: Option<Durational> = plan_damage_over_time(
        row,
        s.attacker.zone_id,
        s.time_formula,
        s.victim.magic_damage_reduction,
    );
    SpellOutcome::Player { damage: hurt, over_time }
}

/// Whether an outcome is that of a spell on an area.
pub open spec fn is_area_spell(
    r: SpellOutcome,
    after: MagicInstance,
    before: MagicInstance,
    moral: i16,
    row: MagicType3Row,
    s: SpellScene,
) -> bool {
    let area = area_spell_of(before.skill_id, moral, s);
    &&& lost_cast(after, before)
    &&& match r {
        SpellOutcome::Lost => !s.caster_placed || s.caster is None,
        SpellOutcome::Area { players, bots, caster, npcs } => {
            &&& s.caster_placed && s.caster is Some
            &&& players@ == area_spell_hits(area, row, s.known, s.players@)
            &&& bots@ == area_bot_hits(area, row, s.known, s.bots@)
            &&& caster == area_caster_heal(
                area,
                row,
                s.caster_sid,
                s.caster->0,
                s.caster_res_hp_type,
            )
            &&& npcs@ == area_spell_npc_hits(area, row, s.attacker, s.known, s.npcs@)
        },
        _ => false,
    }
}

/// Cast on an area.
fn run_area_spell(m: &mut MagicInstance, moral: i16, row: &MagicType3Row, s: &SpellScene) -> (r:
    SpellOutcome)
    requires
        area_spell_fits(old(m).skill_id, moral, *row, *s),
    ensures
        is_area_spell(r, *final(m), *old(m), moral, *row, *s),
{
    if !s.caster_placed {
        return SpellOutcome::Lost;
    }
    let caster: HealTarget = match s.caster {
        Some(c) => c,
        None => {
            return SpellOutcome::Lost;
        },
    };
    let area: AreaSpell = get_area_spell(m.skill_id, moral, s);
    let players: Vec<AreaSpellHit> = hit_players(&area, row, &s.known, &s.players);
    let bots: Vec<AreaBotHit> = hit_bots(&area, row, &s.known, &s.bots);
    let healed: Option<AreaSpellHit> = heal_area_caster(
        &area,
        row,
        s.caster_sid,
        &caster,
        s.caster_res_hp_type,
    );
    let npcs: Vec<AreaNpcHit> = hit_npcs(&area, row, &s.attacker, &s.known, &s.npcs);
    SpellOutcome::Area { players, bots, caster: healed, npcs }
}

/// The cast of a spell that has begun.
pub open spec fn begun(before: MagicInstance, mid: MagicInstance) -> bool {
    same_cast(mid, before) && mid.data@ == before.data@.update(1, 1)
}

/// Whether an outcome is that of a spell whose cast has begun as `mid`.
pub open spec fn is_begun_spell(
    r: SpellOutcome,
    after: MagicInstance,
    mid: MagicInstance,
    skill: MagicRow,
    row: MagicType3Row,
    s: SpellScene,
) -> bool {
    let moral = or_i16(skill.moral, 0);
    match type3_route(moral) {
        Type3Route::HealSelf => is_self_heal(r, after, mid, row, s),
        Type3Route::HealFriend => is_friend_heal(r, after, mid, moral, row, s),
        Type3Route::Enemy => if mid.target_id < 0 {
            r is Failed && failed_cast(after, mid)
        } else if mid.target_id < NPC_BAND {
            is_player_spell(r, after, mid, row, s)
        } else {
            is_unit_spell(r, after, mid, skill, row, s)
        },
        Type3Route::Area => is_area_spell(r, after, mid, moral, row, s),
        _ => r is Shown && lost_cast(after, mid),
    }
}

/// Whether a spell is refused before its cast begins: it has no row, or the potion rules are
/// against it.
pub open spec fn refused_early(
    skill_id: u32,
    skill: MagicRow,
    row: Option<MagicType3Row>,
    gate: Type3Gate,
    last_potion: u64,
    now: u64,
) -> bool {
    row is None || potion_too_soon(skill_id, skill, row->0, last_potion, now) || potion_banned(
        skill,
        row->0,
        gate,
    )
}

/// Whether an outcome is that of a spell.
pub open spec fn is_spell_outcome(
    r: SpellOutcome,
    after: MagicInstance,
    before: MagicInstance,
    skill: MagicRow,
    row: Option<MagicType3Row>,
    s: SpellScene,
    last_potion: u64,
    now: u64,
) -> bool {
    if refused_early(before.skill_id, skill, row, s.gate, last_potion, now) {
        r is Failed && failed_cast(after, before)
    } else if event_shields(before.target_id, s.gate) {
        r is Failed && exists|mid: MagicInstance| #[trigger]
            begun(before, mid) && failed_cast(after, mid)
    } else {
        exists|mid: MagicInstance| #[trigger]
            begun(before, mid) && is_begun_spell(r, after, mid, skill, row->0, s)
    }
}

/// When the last potion was drunk, after a spell.
pub open spec fn potion_time(
    skill_id: u32,
    skill: MagicRow,
    row: Option<MagicType3Row>,
    last_potion: u64,
    now: u64,
) -> u64 {
    if row is Some && potion(skill_id, skill, row->0) && !potion_too_soon(
        skill_id,
        skill,
        row->0,
        last_potion,
        now,
    ) {
        now
    } else {
        last_potion
    }
}

/// Carry out a spell.
pub fn execute_type3(
    m: &mut MagicInstance,
    skill: &MagicRow,
    row: &Option<MagicType3Row>,
    s: &SpellScene,
    last_potion: &mut u64,
    now: u64,
) -> (r: SpellOutcome)
    requires
        !refused_early(old(m).skill_id, *skill, *row, s.gate, *old(last_potion), now)
            && !event_shields(old(m).target_id, s.gate) ==> spell_fits(
            old(m).target_id,
            old(m).skill_id,
            or_i16(skill.moral, 0),
            row->0,
            *s,
        ),
    ensures
        is_spell_outcome(r, *final(m), *old(m), *skill, *row, *s, *old(last_potion), now),
        *final(last_potion) == potion_time(old(m).skill_id, *skill, *row, *old(last_potion), now),
{
    let route: Type3Route = begin_type3(m, skill, row, &s.gate, last_potion, now);
    let ghost mid = *m;
    assert(!refused_early(old(m).skill_id, *skill, *row, s.gate, *old(last_potion), now)
        ==> begun(*old(m), mid));
    let row: MagicType3Row = match row {
        Some(d) => *d,
        None => {
            let _packet = m.send_skill_failed();
            return SpellOutcome::Failed;
        },
    };
    match route {
        Type3Route::Failed => {
            let _packet = m.send_skill_failed();
            SpellOutcome::Failed
        },
        Type3Route::HealSelf => run_self_heal(m, &row, s),
        Type3Route::HealFriend => run_friend_heal(m, skill.moral.unwrap_or(0), &row, s),
        Type3Route::Enemy => {
            if m.target_id < 0 {
                let _packet = m.send_skill_failed();
                SpellOutcome::Failed
            } else if (m.target_id as u32) < NPC_BAND {
                run_player_spell(m, &row, s)
            } else {
                run_unit_spell(m, skill, &row, s)
            }
        },
        Type3Route::Area => run_area_spell(m, skill.moral.unwrap_or(0), &row, s),
        Type3Route::Shown => SpellOutcome::Shown,
    }
}

/// What a spell's cast says: whether it began in its second word, and in its fourth why it
/// failed, how much it heals, or by how much it changes mana. Every other word stays, and so do
/// the opcode, the skill and the two parties.
pub proof fn law_spells_leave_their_words(
    r: SpellOutcome,
    after: MagicInstance,
    before: MagicInstance,
    skill: MagicRow,
    row: Option<MagicType3Row>,
    s: SpellScene,
    last_potion: u64,
    now: u64,
    i: int,
)
    requires
        is_spell_outcome(r, after, before, skill, row, s, last_potion, now),
        0 <= i < 7,
    ensures
        after.opcode == before.opcode && after.skill_id == before.skill_id,
        after.caster_id == before.caster_id && after.target_id == before.target_id,
        i != 1 && i != 3 ==> after.data@[i] == before.data@[i],
        ({
            let refused = row is None || potion_too_soon(
                before.skill_id,
                skill,
                row->0,
                last_potion,
                now,
            ) || potion_banned(skill, row->0, s.gate);
            &&& refused ==> r is Failed && after.data@[1] == before.data@[1]
            &&& !refused ==> after.data@[1] == 1
            &&& !refused && event_shields(before.target_id, s.gate) ==> r is Failed
        }),
        r is Failed && before.opcode == 1 ==> after.data@[3] == -100,
        r is Failed && before.opcode != 1 ==> after.data@[3] == -103,
        r is Healed && 0 <= or_i32(row->0.first_damage, 0) <= 32767 ==> after.data@[3] == or_i32(
            row->0.first_damage,
            0,
        ),
        r is Healed && -32767 <= or_i32(row->0.first_damage, 0) <= 0 ==> after.data@[3] == -or_i32(
            row->0.first_damage,
            0,
        ),
        r is Mana ==> after.data@[3] == or_i32(row->0.first_damage, 0),
        !(r is Failed || r is Healed || r is Mana) ==> after.data@[3] == before.data@[3],
{
    if row is Some && r is Healed && -32767 <= or_i32(row->0.first_damage, 0) <= 32767 {
        crate::spell_cast::law_heals_give_their_amount(
            row->0,
            HealTarget { hp: 0, max_hp: 0, mp: 0, max_mp: 0, undead: false },
        );
    }
}

/// Whom a spell that is not refused is for, by its moral: 1 and 13 heal the caster; 2, 3, 4 and
/// 6 the friend who is aimed at, or the caster without a target; 7 is for one player below
/// 10000 or one unit from there on, and fails without a target; 10, 11 and 12 are for all who
/// are near; others are only shown.
pub proof fn law_spells_go_where_their_moral_says(
    r: SpellOutcome,
    after: MagicInstance,
    before: MagicInstance,
    skill: MagicRow,
    row: Option<MagicType3Row>,
    s: SpellScene,
    last_potion: u64,
    now: u64,
)
    requires
        is_spell_outcome(r, after, before, skill, row, s, last_potion, now),
        !refused_early(before.skill_id, skill, row, s.gate, last_potion, now),
        !event_shields(before.target_id, s.gate),
    ensures
        row is Some,
        ({
            let moral = or_i16(skill.moral, 0);
            let t = before.target_id;
            &&& moral == 1 || moral == 13 ==> match s.caster {
                Some(c) => r == (SpellOutcome::Healed { sid: s.caster_sid, heal: heal(row->0, c) }),
                None => r is Lost,
            }
            &&& moral == 2 || moral == 3 || moral == 4 || moral == 6 ==> {
                &&& friend_heal_ok(moral, row->0, s.friend) && 0 <= t <= 65535 ==> r == (
                SpellOutcome::Healed { sid: t as u16, heal: heal(row->0, s.friend_health) })
                &&& friend_heal_ok(moral, row->0, s.friend) && t < 0 ==> r == (
                SpellOutcome::Healed { sid: s.caster_sid, heal: heal(row->0, s.friend_health) })
                &&& !friend_heal_ok(moral, row->0, s.friend) ==> r is Failed
            }
            &&& moral == 7 && t < 0 ==> r is Failed
            &&& moral == 7 && t >= 10000 ==> (r is Unit <==> s.caster is Some) && (r is Unit
                || r is Lost)
            &&& 10 <= moral <= 12 ==> (r is Area <==> s.caster_placed && s.caster is Some) && (
            r is Area || r is Lost)
            &&& moral <= 0 || moral == 5 || moral == 8 || moral == 9 || moral >= 14 ==> r is Shown
        }),
{
    crate::spell_cast::law_morals_go_one_way(or_i16(skill.moral, 0));
}

/// What a spell at one player comes to. It needs someone alive, in range, who may be attacked
/// and does not blink or block magic. Between players of a snow battle it does 10. Otherwise a
/// row of direct type 2 changes mana, and any other does its damage, now and over time.
pub proof fn law_spells_at_one_player(
    r: SpellOutcome,
    after: MagicInstance,
    before: MagicInstance,
    skill: MagicRow,
    row: Option<MagicType3Row>,
    s: SpellScene,
    last_potion: u64,
    now: u64,
)
    requires
        is_spell_outcome(r, after, before, skill, row, s, last_potion, now),
        !refused_early(before.skill_id, skill, row, s.gate, last_potion, now),
        !event_shields(before.target_id, s.gate),
        or_i16(skill.moral, 0) == 7,
        0 <= before.target_id <= 9999,
    ensures
        ({
            let t = s.target;
            let lives = match t.state {
                Some((posture, hp)) => posture != 3 && hp > 0,
                None => false,
            };
            let open = lives && !t.blinking && !t.blocks_magic && t.in_range;
            let clear = open && t.caster_present && t.hostile;
            let snow = t.caster_zone == 69 && t.snow_battle;
            let mana = or_i32(row->0.direct_type, 0) == 2;
            &&& t.state is None ==> r is Lost
            &&& t.state is Some && !open ==> r is Failed
            &&& open && !t.caster_present ==> r is Lost
            &&& open && t.caster_present && !t.hostile ==> r is Failed
            &&& clear && snow ==> r == (SpellOutcome::Player {
                damage: skill_damage(s.attacker.authority, s.known, s.victim, 10),
                over_time: None,
            })
            &&& clear && !snow && !t.stats_known ==> r is Lost
            &&& clear && !snow && t.stats_known ==> (r is Mana <==> mana) && (r is Player
                <==> !mana)
            &&& r is Player && !snow ==> r == (SpellOutcome::Player {
                damage: skill_damage(
                    s.attacker.authority,
                    s.known,
                    s.victim,
                    victim_damage(before.skill_id, row->0, s),
                ),
                over_time: damage_over_time(
                    row->0,
                    s.attacker.zone_id,
                    s.time_formula,
                    s.victim.magic_damage_reduction,
                ),
            })
        }),
{
}

/// How a spell changes one player's mana: by the row's number, up to the maximum and down to
/// nothing, and the number is shown without its sign.
pub proof fn law_spells_change_mana(
    r: SpellOutcome,
    after: MagicInstance,
    before: MagicInstance,
    skill: MagicRow,
    row: Option<MagicType3Row>,
    s: SpellScene,
    last_potion: u64,
    now: u64,
)
    requires
        is_spell_outcome(r, after, before, skill, row, s, last_potion, now),
        r is Mana,
        0 <= s.target_health.mp <= s.target_health.max_mp,
        -32767 <= or_i32(row->0.first_damage, 0) <= 32767,
    ensures
        match r {
            SpellOutcome::Mana { mp, shown } => {
                let first = or_i32(row->0.first_damage, 0);
                let had = s.target_health.mp;
                let most = s.target_health.max_mp;
                &&& 0 <= had + first <= most ==> mp - had == first
                &&& had + first >= most ==> mp == most
                &&& had + first <= 0 ==> mp == 0
                &&& first >= 0 ==> shown == first
                &&& first <= 0 ==> shown == -first
            },
            _ => false,
        },
{
}

/// The direct damage of a spell to one player: by the formula, its number at the row's
/// percentage for players, or what the class bonus makes of it; otherwise the row's number at
/// that percentage.
pub proof fn law_damage_to_one_player(skill_id: u32, row: MagicType3Row, s: SpellScene)
    requires
        -32767 <= or_i32(row.first_damage, 0),
        or_i32(row.direct_type, 0) != 2,
        or_i32(row.direct_type, 0) != 5,
        s.formula >= 0,
        0 <= s.class_scaled <= 32767,
        0 <= or_i16(row.add_dmg_perc_to_user, 0),
        -or_i32(row.first_damage, 0) * or_i16(row.add_dmg_perc_to_user, 0) <= 3276799,
        s.formula * or_i16(row.add_dmg_perc_to_user, 0) <= 3276799,
    ensures
        ({
            let first = or_i32(row.first_damage, 0);
            let direct = or_i32(row.direct_type, 0);
            let percent = or_i16(row.add_dmg_perc_to_user, 0);
            let by_formula = first < 0 && skill_id < 400000 && (direct == 1 || direct == 8);
            let whole = if by_formula {
                s.formula as int
            } else if first < 0 {
                -first
            } else {
                0
            };
            let damage = victim_damage(skill_id, row, s);
            if by_formula && s.class_factor is Some {
                &&& s.class_scaled >= 1 ==> damage == s.class_scaled
                &&& s.class_scaled == 0 ==> damage == 1
            } else {
                &&& percent == 0 ==> damage == whole
                &&& percent != 0 ==> 100 * damage <= whole * percent < 100 * damage + 100
            }
        }),
{
    let first = or_i32(row.first_damage, 0);
    let percent = or_i16(row.add_dmg_perc_to_user, 0) as int;
    crate::spell::law_formula_or_row(first, or_i32(row.direct_type, 0), skill_id);
    crate::physical::law_percentages_and_bonuses(s.formula, percent, 0);
    let own: int = if first < 0 {
        -first
    } else {
        0
    };
    assert(own * percent <= 3276799) by (nonlinear_arith)
        requires
            own == 0 || own == -first,
            -first * percent <= 3276799,
    ;
    crate::physical::law_percentages_and_bonuses(own as i16, percent, 0);
}

/// What a spell does to one unit: the spell's damage to NPCs, by the cast's target, and damage
/// over time that nothing lessens.
pub proof fn law_spells_at_one_unit(
    r: SpellOutcome,
    after: MagicInstance,
    before: MagicInstance,
    skill: MagicRow,
    row: Option<MagicType3Row>,
    s: SpellScene,
    last_potion: u64,
    now: u64,
)
    requires
        is_spell_outcome(r, after, before, skill, row, s, last_potion, now),
        r is Unit,
    ensures
        match r {
            SpellOutcome::Unit { hurt, over_time } => {
                &&& before.target_id >= 10000
                &&& is_unit_damage(
                    hurt,
                    before.target_id as u32,
                    s.unit,
                    s.attacker,
                    s.siege,
                    after,
                    skill,
                    s.known,
                    npc_spell(before.skill_id, row->0, s.unit_formula),
                )
                &&& over_time == damage_over_time(
                    row->0,
                    s.attacker.zone_id,
                    s.unit_time_formula,
                    100,
                )
            },
            _ => false,
        },
{
}

/// What a spell on an area does is worked out for the cast's skill and moral and the caster's
/// authority, zone, class, nation, genie and place, for the players, the bots, the caster and
/// the NPCs.
pub proof fn law_spells_on_areas(
    r: SpellOutcome,
    after: MagicInstance,
    before: MagicInstance,
    skill: MagicRow,
    row: Option<MagicType3Row>,
    s: SpellScene,
    last_potion: u64,
    now: u64,
    area: AreaSpell,
)
    requires
        is_spell_outcome(r, after, before, skill, row, s, last_potion, now),
        r is Area,
        area.moral == or_i16(skill.moral, 0),
        area.skill_id == before.skill_id,
        area.authority == s.attacker.authority,
        area.zone_id == s.attacker.zone_id,
        area.class == s.area.class,
        area.nation == s.area.nation,
        area.genie_active == s.area.genie_active,
        area.in_enemy_safety == s.area.in_enemy_safety,
    ensures
        match r {
            SpellOutcome::Area { players, bots, caster, npcs } => {
                &&& players@ == area_spell_hits(area, row->0, s.known, s.players@)
                &&& bots@ == area_bot_hits(area, row->0, s.known, s.bots@)
                &&& caster == area_caster_heal(
                    area,
                    row->0,
                    s.caster_sid,
                    s.caster->0,
                    s.caster_res_hp_type,
                )
                &&& npcs@ == area_spell_npc_hits(area, row->0, s.attacker, s.known, s.npcs@)
            },
            _ => false,
        },
{
    assert(area == area_spell_of(before.skill_id, or_i16(skill.moral, 0), s));
}

/// When a potion is drunk the time is remembered; potions that come too soon and all other
/// spells leave it. So whoever drinks at every chance waits at least 2400 between two potions.
pub proof fn law_potion_times_are_kept(
    skill_id: u32,
    skill: MagicRow,
    row: MagicType3Row,
    last: u64,
    now: u64,
)
    ensures
        potion_time(skill_id, skill, None, last, now) == last,
        !potion(skill_id, skill, row) ==> potion_time(skill_id, skill, Some(row), last, now)
            == last,
        potion(skill_id, skill, row) && now < last + 2400 ==> potion_time(
            skill_id,
            skill,
            Some(row),
            last,
            now,
        ) == last,
        potion(skill_id, skill, row) && now >= last + 2400 ==> potion_time(
            skill_id,
            skill,
            Some(row),
            last,
            now,
        ) == now,
{
    crate::spell_cast::law_potions_are_told_apart(skill_id, skill, row, last, now);
}

} // verus!
