//! Who may cast what, where and when: the checks that a skill request passes before it has
//! any effect.

use std::collections::HashMap;

use crate::arith::{or_i16, or_i32};
use crate::cooldown::{
    check_type_cooldown, elapsed, entries_after_skill_check, skill_types_blocked, SkillCooldowns,
    TypeCooldown, TYPE_COOLDOWN_RESET_MS,
};
use crate::instance::{
    caster_is_session, is_npc_id, is_player_id, npc_id, player_id, MagicInstance,
};
use crate::skills::{
    check_skill_class, is_mage_armor_skill, is_rogue_class, is_self_target_skill, is_stomp_skill,
    is_untargeted_skill, mage_armor_skill, rogue_class, self_target_skill, skill_class_allows,
    stomp_skill, untargeted_skill,
};
use crate::tables::MagicRow;
use crate::constants::{
    MAGIC_CANCEL, MAGIC_CANCEL2, MAGIC_CANCEL_TRANSFORMATION, MAGIC_CASTING,
    MAGIC_DURATION_EXPIRED, MAGIC_EFFECTING, MAGIC_FAIL, MAGIC_FLYING, MAGIC_TYPE4_EXTEND,
    MORAL_ALL, MORAL_AREA_ALL, MORAL_AREA_ENEMY, MORAL_AREA_FRIEND, MORAL_ENEMY,
    MORAL_FRIEND_WITHME, MORAL_SELF, NPC_BAND, PET_SUMMON_SKILL, SKILLMAGIC_FAIL_NOFUNCTION,
    SNOW_EVENT_SKILL, USER_DEAD, USER_SITDOWN, ZONE_SNOW_BATTLE,
};
use vstd::prelude::*;

verus! {

/// How long a different animated archery skill has to wait after one.
pub const TYPE2_RECAST_MS: u64 = 500;

/// What a check says: go on, drop the request without a word, or refuse it with a fail packet.
#[derive(Clone, Copy, Debug, PartialEq, Eq, Structural)]
pub enum Gate {
    Pass,
    Ignore,
    Refuse,
}

/// The caster, as far as the checks look.
#[derive(Clone, Copy, Debug)]
pub struct CasterState {
    pub res_hp_type: u8,
    pub hp: i16,
    pub class: u16,
    pub nation: u8,
    pub zone_id: u16,
    pub blinking: bool,
    pub frozen: bool,
    pub attack_disabled: bool,
    pub store_open: bool,
    pub trading: bool,
    pub merchanting: bool,
    pub moving: bool,
    pub instant_cast: bool,
    pub in_enemy_safety_area: bool,
    /// The skill was unlocked for the caster in the survival event.
    pub manes_unlocked: bool,
}

/// The events that restrict magic.
#[derive(Clone, Copy, Debug)]
pub struct EventState {
    pub snow_battle: bool,
    pub in_special_event_zone: bool,
    pub zindan_opened: bool,
    pub cinderella_active: bool,
    pub cinderella_zone: u16,
    pub in_temple_event_zone: bool,
    pub temple_attackable: bool,
    pub event_attack_allowed: bool,
    /// The caster's zone belongs to an event that is played in rooms.
    pub zone_has_rooms: bool,
    pub caster_room: Option<u32>,
    pub target_room: Option<u32>,
    pub in_monster_stone_zone: bool,
    pub monster_stone_status: bool,
    pub same_event_room: bool,
}

/// Side and nation of a known NPC.
#[derive(Clone, Copy, Debug)]
pub struct NpcSide {
    pub group: u8,
    pub nation: u8,
}

/// The target, as far as the checks look.
#[derive(Clone, Copy, Debug)]
pub struct TargetState {
    pub npc_dead: bool,
    pub npc: Option<NpcSide>,
    pub player_known: bool,
}

/// What a session remembers from one request to the next.
pub struct CastMemory {
    pub skill_cooldowns: SkillCooldowns,
    pub type_cooldowns: HashMap<u8, TypeCooldown>,
    pub last_type2_skill_id: u32,
    pub last_type2_cast_time: u64,
    pub cast_failed: bool,
}

// ---------------------------------------------------------------------------------------------
// Before the skill is looked up
// ---------------------------------------------------------------------------------------------

/// What to do with a request before its skill is looked up.
#[derive(Clone, Copy, Debug, PartialEq, Eq, Structural)]
pub enum Screening {
    CancelTransformation,
    SummonPet,
    Ignore,
    Refuse,
    LookUp,
}

/// The first look at a request.
pub open spec fn screening(request: MagicInstance, sid: u16, zone_changing: bool) -> Screening {
    if request.opcode == MAGIC_CANCEL_TRANSFORMATION {
        Screening::CancelTransformation
    } else if request.skill_id == PET_SUMMON_SKILL && request.opcode == MAGIC_EFFECTING {
        Screening::SummonPet
    } else if request.skill_id == 0 || (request.opcode < MAGIC_DURATION_EXPIRED && zone_changing)
        || request.caster_id != sid || sid >= NPC_BAND {
        Screening::Ignore
    } else if (request.target_id != -1 && untargeted_skill(request.skill_id)) || (request.target_id
        != request.caster_id && self_target_skill(request.skill_id)) {
        Screening::Refuse
    } else {
        Screening::LookUp
    }
}

/// Take the first look at a request.
pub fn screen_request(request: &MagicInstance, sid: u16, zone_changing: bool) -> (r: Screening)
    ensures
        r == screening(*request, sid, zone_changing),
{
    if request.opcode == MAGIC_CANCEL_TRANSFORMATION {
        return Screening::CancelTransformation;
    }
    if request.skill_id == PET_SUMMON_SKILL && request.opcode == MAGIC_EFFECTING {
        return Screening::SummonPet;
    }
    if request.skill_id == 0 {
        return Screening::Ignore;
    }
    if request.opcode < MAGIC_DURATION_EXPIRED && zone_changing {
        return Screening::Ignore;
    }
    if !caster_is_session(request.caster_id, sid) {
        return Screening::Ignore;
    }
    if request.target_id != -1 && is_untargeted_skill(request.skill_id) {
        return Screening::Refuse;
    }
    if request.target_id != request.caster_id && is_self_target_skill(request.skill_id) {
        return Screening::Refuse;
    }
    Screening::LookUp
}

// ---------------------------------------------------------------------------------------------
// Small rules
// ---------------------------------------------------------------------------------------------

/// Opcodes that neither blinking, freezing nor a cooldown holds up.
pub open spec fn exempt_opcode(opcode: u8) -> bool {
    ||| opcode == MAGIC_TYPE4_EXTEND
    ||| opcode == MAGIC_CANCEL
    ||| opcode == MAGIC_CANCEL2
    ||| opcode == MAGIC_CANCEL_TRANSFORMATION
    ||| opcode == MAGIC_FAIL
}

/// Whether an opcode is not held up by blinking, freezing or a cooldown.
pub fn is_exempt_opcode(opcode: u8) -> (r: bool)
    ensures
        r == exempt_opcode(opcode),
{
    opcode == MAGIC_TYPE4_EXTEND || opcode == MAGIC_CANCEL || opcode == MAGIC_CANCEL2 || opcode
        == MAGIC_CANCEL_TRANSFORMATION || opcode == MAGIC_FAIL
}

/// Opcodes that take an effect back.
pub open spec fn cancel_opcode(opcode: u8) -> bool {
    ||| opcode == MAGIC_CANCEL
    ||| opcode == MAGIC_CANCEL2
    ||| opcode == MAGIC_CANCEL_TRANSFORMATION
}

/// Whether an opcode takes an effect back.
pub fn is_cancel_opcode(opcode: u8) -> (r: bool)
    ensures
        r == cancel_opcode(opcode),
{
    opcode == MAGIC_CANCEL || opcode == MAGIC_CANCEL2 || opcode == MAGIC_CANCEL_TRANSFORMATION
}

/// Whether a character counts as dead.
pub open spec fn dead(res_hp_type: u8, hp: i16) -> bool {
    res_hp_type == USER_DEAD || hp <= 0
}

/// Whether a character counts as dead.
pub fn is_dead(res_hp_type: u8, hp: i16) -> (r: bool)
    ensures
        r == dead(res_hp_type, hp),
{
    res_hp_type == USER_DEAD || hp <= 0
}

/// The dead cast nothing but resurrections.
pub fn dead_caster_blocked(res_hp_type: u8, hp: i16, type1: i16) -> (r: bool)
    ensures
        r == (dead(res_hp_type, hp) && type1 != 5),
{
    is_dead(res_hp_type, hp) && type1 != 5
}

/// During the Snow Battle only the snowball may be thrown in its zone.
pub fn snow_battle_blocked(zone_id: u16, snow_battle: bool, skill_id: u32) -> (r: bool)
    ensures
        r == (zone_id == ZONE_SNOW_BATTLE && snow_battle && skill_id != SNOW_EVENT_SKILL),
{
    zone_id == ZONE_SNOW_BATTLE && snow_battle && skill_id != SNOW_EVENT_SKILL
}

/// Whether a skill's number belongs to another nation: numbers below 300000 start with their
/// nation's digit.
pub open spec fn foreign_skill(skill_id: u32, nation: u8) -> bool {
    skill_id < 300000 && nation != skill_id / 100000
}

/// Whether a skill belongs to another nation.
pub fn is_foreign_skill(skill_id: u32, nation: u8) -> (r: bool)
    ensures
        r == foreign_skill(skill_id, nation),
{
    skill_id < 300000 && nation as u32 != skill_id / 100000
}

/// Skills for which the caster must stand still fail on the move.
pub fn standing_violated(use_standing: i16, moving: bool) -> (r: bool)
    ensures
        r == (use_standing == 1 && moving),
{
    use_standing == 1 && moving
}

/// Offensive skills that were unlocked in the survival event.
pub open spec fn manes_offensive(manes_unlocked: bool, moral: i16) -> bool {
    manes_unlocked && (moral == MORAL_ENEMY || moral == MORAL_AREA_ENEMY || moral == MORAL_ALL
        || moral == MORAL_AREA_ALL)
}

/// Whether a skill is offensive survival magic.
pub fn is_manes_offensive(manes_unlocked: bool, moral: i16) -> (r: bool)
    ensures
        r == manes_offensive(manes_unlocked, moral),
{
    manes_unlocked && (moral == MORAL_ENEMY || moral == MORAL_AREA_ENEMY || moral == MORAL_ALL
        || moral == MORAL_AREA_ALL)
}

/// A skill's first type as the byte that it is cast by.
pub open spec fn skill_type(skill: MagicRow) -> u8 {
    or_i16(skill.type1, 0) as u8
}

/// Buffs that use up a scroll.
pub open spec fn scroll_buff(skill: MagicRow) -> bool {
    &&& skill.item_group == Some(9i16) || skill.item_group == Some(255i16)
    &&& skill_type(skill) == 4
    &&& or_i32(skill.use_item, 0) > 0
}

/// Whether a skill is a buff from a scroll.
pub fn is_scroll_buff(skill: &MagicRow) -> (r: bool)
    ensures
        r == scroll_buff(*skill),
{
    let group: i16 = match skill.item_group {
        Some(g) => g,
        None => 0,
    };
    (group == 9 || group == 255) && skill.type1.unwrap_or(0) as u8 == 4 && skill.use_item.unwrap_or(
        0,
    ) > 0
}

/// Area skills may name no target as 0; from here on it is `-1`.
pub open spec fn ground_target(target_id: i32, moral: i16) -> i32 {
    if target_id == 0 && (moral == MORAL_AREA_ENEMY || moral == MORAL_AREA_FRIEND || moral
        == MORAL_AREA_ALL) {
        -1i32
    } else {
        target_id
    }
}

/// The target of a request, with `-1` for an area skill's missing target.
pub fn normalize_target(target_id: i32, moral: i16) -> (r: i32)
    ensures
        r == ground_target(target_id, moral),
{
    if target_id == 0 && (moral == MORAL_AREA_ENEMY || moral == MORAL_AREA_FRIEND || moral
        == MORAL_AREA_ALL) {
        -1
    } else {
        target_id
    }
}

/// Self skills hit the caster whatever was aimed at; friend skills do so where an NPC was.
pub open spec fn redirected_target(target_id: i32, caster_id: i32, moral: i16) -> i32 {
    if moral == MORAL_SELF || (moral == MORAL_FRIEND_WITHME && target_id != -1 && npc_id(
        target_id,
    )) {
        caster_id
    } else {
        target_id
    }
}

/// The target that a skill takes effect on.
pub fn redirect_target(target_id: i32, caster_id: i32, moral: i16) -> (r: i32)
    ensures
        r == redirected_target(target_id, caster_id, moral),
{
    if moral == MORAL_SELF || (moral == MORAL_FRIEND_WITHME && target_id != -1 && is_npc_id(
        target_id,
    )) {
        caster_id
    } else {
        target_id
    }
}

/// Skills with a casting animation that may be interrupted.
pub open spec fn animated(t_1: i32, cast_time: i16, item_group: i16, skill_id: u32) -> bool {
    t_1 != -1 && t_1 != 0 && cast_time > 0 && item_group != 255 && !mage_armor_skill(skill_id)
}

/// Whether a skill has a casting animation that may be interrupted.
pub fn is_animated_skill(t_1: i32, cast_time: i16, item_group: i16, skill_id: u32) -> (r: bool)
    ensures
        r == animated(t_1, cast_time, item_group, skill_id),
{
    t_1 != -1 && t_1 != 0 && cast_time > 0 && item_group != 255 && !is_mage_armor_skill(skill_id)
}

/// Whether an archery skill follows a different one too soon.
pub fn type2_too_soon(last_id: u32, last_time: u64, skill_id: u32, now: u64) -> (r: bool)
    ensures
        r == (last_id != 0 && last_id != skill_id && elapsed(now, last_time) < TYPE2_RECAST_MS),
{
    let passed: u64 = if now >= last_time {
        now - last_time
    } else {
        0
    };
    last_id != 0 && last_id != skill_id && passed < TYPE2_RECAST_MS
}

/// Neutral NPCs, by their template or by their own nation.
pub open spec fn neutral_npc(npc: NpcSide) -> bool {
    npc.group == 3 || npc.nation == 3
}

// ---------------------------------------------------------------------------------------------
// The checks, one after the other
// ---------------------------------------------------------------------------------------------

/// What the caster's own state says.
pub open spec fn caster_gate(
    opcode: u8,
    skill_id: u32,
    skill: MagicRow,
    caster: CasterState,
    snow_battle: bool,
) -> Gate {
    let moral = or_i16(skill.moral, 0);
    if dead(caster.res_hp_type, caster.hp) && or_i16(skill.type1, 0) != 5 {
        Gate::Ignore
    } else if caster.res_hp_type == USER_SITDOWN && (moral == MORAL_ENEMY || moral
        == MORAL_AREA_ENEMY) {
        Gate::Ignore
    } else if !exempt_opcode(opcode) && caster.blinking {
        Gate::Ignore
    } else if caster.attack_disabled || caster.store_open {
        Gate::Refuse
    } else if caster.zone_id == ZONE_SNOW_BATTLE && snow_battle && skill_id != SNOW_EVENT_SKILL {
        Gate::Refuse
    } else if !exempt_opcode(opcode) && caster.frozen {
        Gate::Ignore
    } else {
        Gate::Pass
    }
}

/// Check the caster's own state.
pub fn check_caster(
    opcode: u8,
    skill_id: u32,
    skill: &MagicRow,
    caster: &CasterState,
    snow_battle: bool,
) -> (r: Gate)
    ensures
        r == caster_gate(opcode, skill_id, *skill, *caster, snow_battle),
{
    let moral: i16 = skill.moral.unwrap_or(0);
    if dead_caster_blocked(caster.res_hp_type, caster.hp, skill.type1.unwrap_or(0)) {
        return Gate::Ignore;
    }
    if caster.res_hp_type == USER_SITDOWN && (moral == MORAL_ENEMY || moral == MORAL_AREA_ENEMY) {
        return Gate::Ignore;
    }
    if !is_exempt_opcode(opcode) && caster.blinking {
        return Gate::Ignore;
    }
    if caster.attack_disabled {
        return Gate::Refuse;
    }
    if caster.store_open {
        return Gate::Refuse;
    }
    if snow_battle_blocked(caster.zone_id, snow_battle, skill_id) {
        return Gate::Refuse;
    }
    if !is_exempt_opcode(opcode) && caster.frozen {
        return Gate::Ignore;
    }
    Gate::Pass
}

/// What the running events say. Special event zones and the Cinderella zone allow offensive
/// magic only while their war runs; a temple event allows magic only in its combat phase and
/// within one room; monster stone rooms are closed to each other.
pub open spec fn event_blocks(
    moral: i16,
    target_id: i32,
    zone_id: u16,
    event: EventState,
) -> bool {
    let offensive = moral == MORAL_ENEMY || moral == MORAL_AREA_ENEMY;
    let attacking = moral == MORAL_ENEMY || moral == MORAL_ALL || moral == MORAL_AREA_ALL;
    let same_room = event.caster_room is Some && event.target_room is Some && event.caster_room
        == event.target_room;
    ||| offensive && !event.zindan_opened && (if event.cinderella_active {
        event.cinderella_zone == zone_id
    } else {
        event.in_special_event_zone
    })
    ||| event.in_temple_event_zone && !event.temple_attackable
    ||| event.in_temple_event_zone && attacking && !event.event_attack_allowed
    ||| event.in_temple_event_zone && player_id(target_id) && event.zone_has_rooms && !same_room
    ||| event.in_monster_stone_zone && event.monster_stone_status && player_id(target_id)
        && !event.same_event_room
}

/// Check the running events; `true` where they forbid the skill.
pub fn check_events(moral: i16, target_id: i32, zone_id: u16, event: &EventState) -> (r: bool)
    ensures
        r == event_blocks(moral, target_id, zone_id, *event),
{
    if moral == MORAL_ENEMY || moral == MORAL_AREA_ENEMY {
        if event.in_special_event_zone && !event.zindan_opened && !event.cinderella_active {
            return true;
        }
        if !event.zindan_opened && event.cinderella_active && event.cinderella_zone == zone_id {
            return true;
        }
    }
    if event.in_temple_event_zone {
        if !event.temple_attackable {
            return true;
        }
        if (moral == MORAL_ENEMY || moral == MORAL_ALL || moral == MORAL_AREA_ALL)
            && !event.event_attack_allowed {
            return true;
        }
        if is_player_id(target_id) && event.zone_has_rooms {
            match (event.caster_room, event.target_room) {
                (Some(a), Some(t)) => {
                    if a != t {
                        return true;
                    }
                },
                _ => {
                    return true;
                },
            }
        }
    }
    event.in_monster_stone_zone && event.monster_stone_status && is_player_id(target_id)
        && !event.same_event_room
}

/// Whether a skill's own cooldown counts for a request. An instant cast skips it, except for
/// offensive survival magic and scroll buffs; stealth has none.
pub open spec fn cooldown_counts(
    opcode: u8,
    skill: MagicRow,
    instant_cast: bool,
    manes_unlocked: bool,
) -> bool {
    &&& skill_type(skill) != 9
    &&& !instant_cast || manes_offensive(manes_unlocked, or_i16(skill.moral, 0)) || scroll_buff(
        skill,
    )
    &&& !exempt_opcode(opcode)
}

/// Whether a skill's own cooldown counts for a request.
pub fn cooldown_applies(
    opcode: u8,
    skill: &MagicRow,
    instant_cast: bool,
    manes_unlocked: bool,
) -> (r: bool)
    ensures
        r == cooldown_counts(opcode, *skill, instant_cast, manes_unlocked),
{
    skill.type1.unwrap_or(0) as u8 != 9 && (!instant_cast || is_manes_offensive(
        manes_unlocked,
        skill.moral.unwrap_or(0),
    ) || is_scroll_buff(skill)) && !is_exempt_opcode(opcode)
}

/// What being busy, the safety areas and the skill's cooldown say.
pub open spec fn busy_gate(
    opcode: u8,
    skill_id: u32,
    skill: MagicRow,
    caster: CasterState,
    waiting: bool,
) -> Gate {
    if caster.trading || caster.merchanting {
        Gate::Ignore
    } else if skill_id < 400000 && caster.in_enemy_safety_area {
        Gate::Refuse
    } else if cooldown_counts(opcode, skill, caster.instant_cast, caster.manes_unlocked)
        && waiting {
        Gate::Refuse
    } else {
        Gate::Pass
    }
}

/// Check that the caster is free to cast and the skill ready.
pub fn check_busy(
    opcode: u8,
    skill_id: u32,
    skill: &MagicRow,
    caster: &CasterState,
    waiting: bool,
) -> (r: Gate)
    ensures
        r == busy_gate(opcode, skill_id, *skill, *caster, waiting),
{
    if caster.trading || caster.merchanting {
        return Gate::Ignore;
    }
    if skill_id < 400000 && caster.in_enemy_safety_area {
        return Gate::Refuse;
    }
    if cooldown_applies(opcode, skill, caster.instant_cast, caster.manes_unlocked) && waiting {
        return Gate::Refuse;
    }
    Gate::Pass
}

/// Whether the cooldown of the skill's kind counts for a request.
pub open spec fn type_cooldown_counts(
    opcode: u8,
    skill_id: u32,
    skill: MagicRow,
    manes_unlocked: bool,
) -> bool {
    let t = skill_type(skill);
    &&& t == 1 || t == 3 || t == 4 || t == 5 || t == 6 || t == 7
    &&& skill_id < 400000 || manes_unlocked
    &&& or_i16(skill.item_group, 0) as u8 != 255
    &&& opcode != MAGIC_FAIL
}

/// Whether a request is not held up by its first kind: prolonging a buff, or a plain attack
/// speed buff.
pub open spec fn speed_bypass(opcode: u8, skill: MagicRow, attack_speed_buff: bool) -> bool {
    opcode == MAGIC_TYPE4_EXTEND || (skill_type(skill) == 4 && or_i16(skill.type2, 0) as u8 == 0
        && attack_speed_buff)
}

/// What the class, the nation and the need to stand still say.
pub open spec fn caster_fits(
    opcode: u8,
    skill_id: u32,
    skill: MagicRow,
    caster: CasterState,
) -> bool {
    let s_skill = or_i16(skill.skill, 0);
    let iclass = crate::arith::tdiv(s_skill as int, 10) as i16;
    &&& cancel_opcode(opcode) || caster.manes_unlocked || !foreign_skill(skill_id, caster.nation)
    &&& !((opcode == MAGIC_FLYING || opcode == MAGIC_EFFECTING) && or_i16(skill.use_standing, 0) == 1
        && caster.moving)
    &&& cancel_opcode(opcode) || caster.manes_unlocked || s_skill == 0 || iclass == 0
        || skill_class_allows(iclass, caster.class)
}

/// Check nation, standing still and class.
pub fn check_caster_fits(
    opcode: u8,
    skill_id: u32,
    skill: &MagicRow,
    caster: &CasterState,
) -> (r: bool)
    ensures
        r == caster_fits(opcode, skill_id, *skill, *caster),
{
    if !is_cancel_opcode(opcode) && is_foreign_skill(skill_id, caster.nation)
        && !caster.manes_unlocked {
        return false;
    }
    if (opcode == MAGIC_FLYING || opcode == MAGIC_EFFECTING) && standing_violated(
        skill.use_standing.unwrap_or(0),
        caster.moving,
    ) {
        return false;
    }
    if !is_cancel_opcode(opcode) {
        let s_skill: i16 = skill.skill.unwrap_or(0);
        let iclass: i16 = s_skill / 10;
        if s_skill != 0 && iclass != 0 && !check_skill_class(iclass, caster.class)
            && !caster.manes_unlocked {
            return false;
        }
    }
    true
}

/// What the target says: a dead NPC is ignored, an unknown player and a neutral NPC are
/// refused.
pub open spec fn target_gate(target_id: i32, moral: i16, target: TargetState) -> Gate {
    if target_id == -1 {
        Gate::Pass
    } else if npc_id(target_id) {
        if target.npc_dead {
            Gate::Ignore
        } else if (moral == MORAL_ENEMY || moral == MORAL_AREA_ENEMY) && target.npc is Some
            && neutral_npc(target.npc->0) {
            Gate::Refuse
        } else {
            Gate::Pass
        }
    } else if !target.player_known {
        Gate::Refuse
    } else {
        Gate::Pass
    }
}

/// Check the target.
pub fn check_target(target_id: i32, moral: i16, target: &TargetState) -> (r: Gate)
    ensures
        r == target_gate(target_id, moral, *target),
{
    if target_id == -1 {
        return Gate::Pass;
    }
    if is_npc_id(target_id) {
        if target.npc_dead {
            return Gate::Ignore;
        }
        if moral == MORAL_ENEMY || moral == MORAL_AREA_ENEMY {
            match target.npc {
                Some(npc) => {
                    if npc.group == 3 || npc.nation == 3 {
                        return Gate::Refuse;
                    }
                },
                None => {},
            }
        }
        Gate::Pass
    } else if !target.player_known {
        Gate::Refuse
    } else {
        Gate::Pass
    }
}

/// Whether the casting animation stops a request: an archery skill that follows another too
/// soon, or an effect whose casting was interrupted by a step.
pub open spec fn animation_blocks(
    opcode: u8,
    skill_id: u32,
    skill: MagicRow,
    last_type2_skill_id: u32,
    last_type2_cast_time: u64,
    cast_failed: bool,
    now: u64,
) -> bool {
    &&& animated(
        or_i32(skill.t_1, 0),
        or_i16(skill.cast_time, 0),
        or_i16(skill.item_group, 0),
        skill_id,
    )
    &&& if opcode == MAGIC_CASTING {
        or_i16(skill.type1, 0) == 2 && last_type2_skill_id != 0 && last_type2_skill_id != skill_id
            && elapsed(now, last_type2_cast_time) < TYPE2_RECAST_MS
    } else {
        cast_failed
    }
}

/// Check the casting animation and remember what later phases need; `true` where the request
/// stops.
fn check_animation(
    opcode: u8,
    skill_id: u32,
    skill: &MagicRow,
    moving: bool,
    memory: &mut CastMemory,
    now: u64,
) -> (stop: bool)
    ensures
        stop == animation_blocks(
            opcode,
            skill_id,
            *skill,
            old(memory).last_type2_skill_id,
            old(memory).last_type2_cast_time,
            old(memory).cast_failed,
            now,
        ),
        memory_after_animation(opcode, skill_id, *skill, moving, now, *old(memory), *final(memory)),
{
    let cast_time: i16 = skill.cast_time.unwrap_or(0);
    if !is_animated_skill(
        skill.t_1.unwrap_or(0),
        cast_time,
        skill.item_group.unwrap_or(0),
        skill_id,
    ) {
        return false;
    }
    if opcode == MAGIC_CASTING {
        if skill.type1.unwrap_or(0) == 2 {
            if type2_too_soon(
                memory.last_type2_skill_id,
                memory.last_type2_cast_time,
                skill_id,
                now,
            ) {
                return true;
            }
            memory.last_type2_cast_time = now;
            memory.last_type2_skill_id = skill_id;
        }
        memory.cast_failed = moving;
        false
    } else if memory.cast_failed {
        memory.cast_failed = false;
        true
    } else {
        false
    }
}

/// What the animation check leaves in the memory: the last archery skill, and whether the
/// caster moved while casting.
pub open spec fn memory_after_animation(
    opcode: u8,
    skill_id: u32,
    skill: MagicRow,
    moving: bool,
    now: u64,
    before: CastMemory,
    after: CastMemory,
) -> bool {
    let is_animated = animated(
        or_i32(skill.t_1, 0),
        or_i16(skill.cast_time, 0),
        or_i16(skill.item_group, 0),
        skill_id,
    );
    let stop = animation_blocks(
        opcode,
        skill_id,
        skill,
        before.last_type2_skill_id,
        before.last_type2_cast_time,
        before.cast_failed,
        now,
    );
    let recorded = is_animated && opcode == MAGIC_CASTING && or_i16(skill.type1, 0) == 2 && !stop;
    &&& after.skill_cooldowns == before.skill_cooldowns
    &&& after.type_cooldowns == before.type_cooldowns
    &&& after.last_type2_skill_id == if recorded {
        skill_id
    } else {
        before.last_type2_skill_id
    }
    &&& after.last_type2_cast_time == if recorded {
        now
    } else {
        before.last_type2_cast_time
    }
    &&& after.cast_failed == if !is_animated {
        before.cast_failed
    } else if opcode == MAGIC_CASTING {
        if stop {
            before.cast_failed
        } else {
            moving
        }
    } else {
        false
    }
}

// ---------------------------------------------------------------------------------------------
// All checks together
// ---------------------------------------------------------------------------------------------

/// What the checks before the cooldown of the skill's kind say together. The request's target
/// has been normalized.
pub open spec fn early_gate(
    request: MagicInstance,
    skill: MagicRow,
    caster: CasterState,
    event: EventState,
    waiting: bool,
) -> Gate {
    let first = caster_gate(request.opcode, request.skill_id, skill, caster, event.snow_battle);
    if first != Gate::Pass {
        first
    } else if event_blocks(or_i16(skill.moral, 0), request.target_id, caster.zone_id, event) {
        Gate::Refuse
    } else {
        busy_gate(request.opcode, request.skill_id, skill, caster, waiting)
    }
}

/// What the checks of caster and target after the cooldown of the skill's kind say together.
pub open spec fn late_gate(
    request: MagicInstance,
    skill: MagicRow,
    caster: CasterState,
    target: TargetState,
) -> Gate {
    if !caster_fits(request.opcode, request.skill_id, skill, caster) {
        Gate::Refuse
    } else {
        target_gate(request.target_id, or_i16(skill.moral, 0), target)
    }
}

/// The request with its target normalized.
pub open spec fn with_target(request: MagicInstance, target_id: i32) -> MagicInstance {
    MagicInstance { target_id, ..request }
}

/// What all checks say together about a request, and how it stands then. The first check that
/// does not pass decides.
pub open spec fn cast_gate(
    request: MagicInstance,
    skill: MagicRow,
    caster: CasterState,
    event: EventState,
    target: TargetState,
    attack_speed_buff: bool,
    memory: CastMemory,
    now: u64,
) -> Gate {
    let moral = or_i16(skill.moral, 0);
    let r = with_target(request, ground_target(request.target_id, moral));
    let early = early_gate(r, skill, caster, event, waiting_at(memory, r.skill_id, now));
    let late = late_gate(r, skill, caster, target);
    if early != Gate::Pass {
        early
    } else if kind_blocks(r, skill, caster, attack_speed_buff, memory, now) {
        if stomp_skill(r.skill_id) || rogue_class(caster.class) {
            Gate::Refuse
        } else {
            Gate::Ignore
        }
    } else if late != Gate::Pass {
        late
    } else if animation_blocks(
        r.opcode,
        r.skill_id,
        skill,
        memory.last_type2_skill_id,
        memory.last_type2_cast_time,
        memory.cast_failed,
        now,
    ) {
        Gate::Refuse
    } else {
        Gate::Pass
    }
}

/// Whether a skill is still waiting for its own cooldown.
pub open spec fn waiting_at(memory: CastMemory, skill_id: u32, now: u64) -> bool {
    memory.skill_cooldowns@.dom().contains(skill_id) && now < memory.skill_cooldowns@[skill_id]
}

/// Whether the cooldown of the skill's kind holds a request up.
pub open spec fn kind_blocks(
    request: MagicInstance,
    skill: MagicRow,
    caster: CasterState,
    attack_speed_buff: bool,
    memory: CastMemory,
    now: u64,
) -> bool {
    type_cooldown_counts(request.opcode, request.skill_id, skill, caster.manes_unlocked)
        && skill_types_blocked(
        memory.type_cooldowns@,
        skill,
        skill_type(skill),
        or_i16(skill.type2, 0) as u8,
        speed_bypass(request.opcode, skill, attack_speed_buff),
        now,
    )
}

/// The cooldowns per kind after the checks: touched only where a request got that far and the
/// cooldown counts for it.
pub open spec fn kinds_after(
    request: MagicInstance,
    skill: MagicRow,
    caster: CasterState,
    event: EventState,
    attack_speed_buff: bool,
    memory: CastMemory,
    now: u64,
) -> Map<u8, TypeCooldown> {
    let r = with_target(request, ground_target(request.target_id, or_i16(skill.moral, 0)));
    if early_gate(r, skill, caster, event, waiting_at(memory, r.skill_id, now)) == Gate::Pass
        && type_cooldown_counts(r.opcode, r.skill_id, skill, caster.manes_unlocked) {
        entries_after_skill_check(
            memory.type_cooldowns@,
            skill,
            skill_type(skill),
            or_i16(skill.type2, 0) as u8,
            speed_bypass(r.opcode, skill, attack_speed_buff),
            now,
        )
    } else {
        memory.type_cooldowns@
    }
}

/// Whether a request got as far as the animation check.
pub open spec fn reaches_animation(
    request: MagicInstance,
    skill: MagicRow,
    caster: CasterState,
    event: EventState,
    target: TargetState,
    attack_speed_buff: bool,
    memory: CastMemory,
    now: u64,
) -> bool {
    let r = with_target(request, ground_target(request.target_id, or_i16(skill.moral, 0)));
    &&& early_gate(r, skill, caster, event, waiting_at(memory, r.skill_id, now)) == Gate::Pass
    &&& !kind_blocks(r, skill, caster, attack_speed_buff, memory, now)
    &&& late_gate(r, skill, caster, target) == Gate::Pass
}

/// Run all checks on a request whose skill is known.
///
/// On the way the target is normalized and, once caster and target have passed, redirected.
/// A refusal by the cooldown of the skill's kind writes its reason into the fourth data word.
pub fn check_cast(
    request: &mut MagicInstance,
    skill: &MagicRow,
    caster: &CasterState,
    event: &EventState,
    target: &TargetState,
    attack_speed_buff: bool,
    memory: &mut CastMemory,
    now: u64,
) -> (gate: Gate)
    requires
        now >= TYPE_COOLDOWN_RESET_MS,
    ensures
        gate == cast_gate(
            *old(request),
            *skill,
            *caster,
            *event,
            *target,
            attack_speed_buff,
            *old(memory),
            now,
        ),
        final(request).opcode == old(request).opcode,
        final(request).skill_id == old(request).skill_id,
        final(request).caster_id == old(request).caster_id,
        ({
            let moral = or_i16(skill.moral, 0);
            let ground = ground_target(old(request).target_id, moral);
            let r = with_target(*old(request), ground);
            let early = early_gate(
                r,
                *skill,
                *caster,
                *event,
                waiting_at(*old(memory), r.skill_id, now),
            );
            let held_up = early == Gate::Pass && kind_blocks(
                r,
                *skill,
                *caster,
                attack_speed_buff,
                *old(memory),
                now,
            );
            let reached = reaches_animation(
                *old(request),
                *skill,
                *caster,
                *event,
                *target,
                attack_speed_buff,
                *old(memory),
                now,
            );
            &&& final(request).target_id == if reached {
                redirected_target(ground, old(request).caster_id, moral)
            } else {
                ground
            }
            &&& final(request).data@ == if held_up && (stomp_skill(r.skill_id) || rogue_class(
                caster.class,
            )) {
                old(request).data@.update(3, SKILLMAGIC_FAIL_NOFUNCTION)
            } else {
                old(request).data@
            }
            &&& final(memory).skill_cooldowns@ == old(memory).skill_cooldowns@
            &&& final(memory).type_cooldowns@ == kinds_after(
                *old(request),
                *skill,
                *caster,
                *event,
                attack_speed_buff,
                *old(memory),
                now,
            )
            &&& reached ==> memory_after_animation(
                r.opcode,
                r.skill_id,
                *skill,
                caster.moving,
                now,
                CastMemory { type_cooldowns: final(memory).type_cooldowns, ..*old(memory) },
                *final(memory),
            )
            &&& !reached ==> final(memory).last_type2_skill_id == old(memory).last_type2_skill_id
                && final(memory).last_type2_cast_time == old(memory).last_type2_cast_time
                && final(memory).cast_failed == old(memory).cast_failed
        }),
{
    let moral: i16 = skill.moral.unwrap_or(0);
    request.target_id = normalize_target(request.target_id, moral);
    let opcode: u8 = request.opcode;
    let skill_id: u32 = request.skill_id;
    let ghost ground = *request;
    assert(ground == with_target(*old(request), ground_target(old(request).target_id, moral)));

    let own = check_caster(opcode, skill_id, skill, caster, event.snow_battle);
    if own != Gate::Pass {
        return own;
    }
    if check_events(moral, request.target_id, caster.zone_id, event) {
        return Gate::Refuse;
    }
    let waiting: bool = memory.skill_cooldowns.on_cooldown(skill_id, now);
    let busy = check_busy(opcode, skill_id, skill, caster, waiting);
    if busy != Gate::Pass {
        return busy;
    }
    let type1: u8 = skill.type1.unwrap_or(0) as u8;
    let type2: u8 = skill.type2.unwrap_or(0) as u8;
    let item_group: u8 = skill.item_group.unwrap_or(0) as u8;
    if matches!(type1, 1 | 3 | 4 | 5 | 6 | 7) && (skill_id < 400000 || caster.manes_unlocked)
        && item_group != 255 && opcode != MAGIC_FAIL {
        let existspeed: bool = opcode == MAGIC_TYPE4_EXTEND || (type1 == 4 && type2 == 0
            && attack_speed_buff);
        if check_type_cooldown(
            &mut memory.type_cooldowns,
            skill,
            type1,
            type2,
            existspeed,
            now,
        ) {
            if is_stomp_skill(skill_id) || is_rogue_class(caster.class) {
                request.data[3] = SKILLMAGIC_FAIL_NOFUNCTION;
                return Gate::Refuse;
            }
            return Gate::Ignore;
        }
    }
    if !check_caster_fits(opcode, skill_id, skill, caster) {
        return Gate::Refuse;
    }
    let aim = check_target(request.target_id, moral, target);
    if aim != Gate::Pass {
        return aim;
    }
    request.target_id = redirect_target(request.target_id, request.caster_id, moral);
    if check_animation(opcode, skill_id, skill, caster.moving, memory, now) {
        return Gate::Refuse;
    }
    Gate::Pass
}

// ---------------------------------------------------------------------------------------------
// Laws
// ---------------------------------------------------------------------------------------------

/// A request that takes an effect back is stopped neither by blinking or freezing, nor by the
/// skill's cooldown, nor by nation or class.
pub proof fn law_cancel_is_not_held_up(
    opcode: u8,
    skill_id: u32,
    skill: MagicRow,
    caster: CasterState,
    waiting: bool,
    snow_battle: bool,
)
    requires
        cancel_opcode(opcode),
    ensures
        caster_fits(opcode, skill_id, skill, caster),
        busy_gate(opcode, skill_id, skill, caster, waiting) == busy_gate(
            opcode,
            skill_id,
            skill,
            caster,
            false,
        ),
        caster_gate(opcode, skill_id, skill, caster, snow_battle) == caster_gate(
            opcode,
            skill_id,
            skill,
            CasterState { blinking: false, frozen: false, ..caster },
            snow_battle,
        ),
{
}

/// What is known of a request that passed: the caster lives or resurrects, is neither busy nor
/// barred, the skill is ready and fits the caster, and the target can be aimed at.
pub proof fn law_passed_request_is_clear(
    request: MagicInstance,
    skill: MagicRow,
    caster: CasterState,
    event: EventState,
    target: TargetState,
    attack_speed_buff: bool,
    memory: CastMemory,
    now: u64,
)
    requires
        cast_gate(
            request,
            skill,
            caster,
            event,
            target,
            attack_speed_buff,
            memory,
            now,
        ) == Gate::Pass,
    ensures
        dead(caster.res_hp_type, caster.hp) ==> or_i16(skill.type1, 0) == 5,
        !caster.attack_disabled && !caster.store_open && !caster.trading && !caster.merchanting,
        !exempt_opcode(request.opcode) ==> !caster.blinking && !caster.frozen,
        event.in_temple_event_zone ==> event.temple_attackable,
        caster.zone_id == ZONE_SNOW_BATTLE && event.snow_battle ==> request.skill_id
            == SNOW_EVENT_SKILL,
        cooldown_counts(request.opcode, skill, caster.instant_cast, caster.manes_unlocked)
            ==> !waiting_at(memory, request.skill_id, now),
        !cancel_opcode(request.opcode) && !caster.manes_unlocked ==> !foreign_skill(
            request.skill_id,
            caster.nation,
        ),
        player_id(ground_target(request.target_id, or_i16(skill.moral, 0)))
            ==> target.player_known,
{
}

/// A screened request that is looked up names its own session as caster.
pub proof fn law_no_spoofed_caster(request: MagicInstance, sid: u16, zone_changing: bool)
    requires
        screening(request, sid, zone_changing) == Screening::LookUp,
    ensures
        request.caster_id == sid,
        player_id(request.caster_id),
        request.skill_id != 0,
{
}

/// A step while casting makes the effect fail once, and then no more.
pub proof fn law_moving_while_casting_fails_the_effect(
    skill_id: u32,
    skill: MagicRow,
    now: u64,
    m0: CastMemory,
    m1: CastMemory,
    m2: CastMemory,
    later: u64,
)
    requires
        animated(
            or_i32(skill.t_1, 0),
            or_i16(skill.cast_time, 0),
            or_i16(skill.item_group, 0),
            skill_id,
        ),
        or_i16(skill.type1, 0) != 2,
        memory_after_animation(MAGIC_CASTING, skill_id, skill, true, now, m0, m1),
        memory_after_animation(MAGIC_EFFECTING, skill_id, skill, false, later, m1, m2),
    ensures
        animation_blocks(
            MAGIC_EFFECTING,
            skill_id,
            skill,
            m1.last_type2_skill_id,
            m1.last_type2_cast_time,
            m1.cast_failed,
            later,
        ),
        !animation_blocks(
            MAGIC_EFFECTING,
            skill_id,
            skill,
            m2.last_type2_skill_id,
            m2.last_type2_cast_time,
            m2.cast_failed,
            later,
        ),
{
}

/// The first look: opcode 7 takes a transformation back, and the pet skill in its effect phase
/// calls the pet. After these nothing is looked up for skill 0, for someone else's cast, or in
/// the phases before 5 while a player changes zones; skills that need no target or oneself as
/// target are refused with another one.
pub proof fn law_first_look(request: MagicInstance, sid: u16, zone_changing: bool)
    requires
        sid <= 9999,
    ensures
        ({
            let s = screening(request, sid, zone_changing);
            let pet = request.skill_id == 500117 && request.opcode == 3;
            let tree = request.skill_id % 100000;
            let idle = request.skill_id == 0 || request.caster_id != sid || (zone_changing
                && request.opcode <= 4);
            let own = request.skill_id / 100000 == 1 || request.skill_id / 100000 == 2;
            let astray = own && ((tree == 9035 || tree == 10035) && request.target_id != -1 || (
            tree == 9015 || tree == 10015) && request.target_id != request.caster_id);
            &&& s is CancelTransformation <==> request.opcode == 7
            &&& s is SummonPet <==> pet
            &&& s is Ignore <==> request.opcode != 7 && !pet && idle
            &&& s is Refuse <==> request.opcode != 7 && !pet && !idle && astray
            &&& s is LookUp <==> request.opcode != 7 && !pet && !idle && !astray
        }),
{
    crate::skills::law_skill_kinds_go_by_class(request.skill_id);
}

/// Small rules by their numbers: which opcodes nothing holds up and which of them take an
/// effect back, who is dead, whose skill it is by its first digit, and which morals attack.
pub proof fn law_small_rules(opcode: u8, posture: u8, hp: i16, skill_id: u32, nation: u8, moral: i16)
    ensures
        exempt_opcode(opcode) <==> opcode == 4 || opcode == 6 || opcode == 7 || opcode == 8
            || opcode == 13,
        cancel_opcode(opcode) <==> opcode == 6 || opcode == 7 || opcode == 13,
        dead(posture, hp) <==> posture == 3 || hp < 1,
        skill_id < 100000 ==> (foreign_skill(skill_id, nation) <==> nation != 0),
        100000 <= skill_id < 200000 ==> (foreign_skill(skill_id, nation) <==> nation != 1),
        200000 <= skill_id < 300000 ==> (foreign_skill(skill_id, nation) <==> nation != 2),
        skill_id >= 300000 ==> !foreign_skill(skill_id, nation),
        manes_offensive(true, moral) <==> moral == 7 || moral == 8 || moral == 10 || moral == 12,
        !manes_offensive(false, moral),
{
}

/// Where a skill goes: an area skill without a target names none, a skill on oneself goes to
/// the caster, and so does one on friends that was aimed at an NPC; every other target stays.
pub proof fn law_targets_are_put_right(target_id: i32, caster_id: i32, moral: i16)
    ensures
        10 <= moral <= 12 && target_id == 0 ==> ground_target(target_id, moral) == -1,
        !(10 <= moral <= 12 && target_id == 0) ==> ground_target(target_id, moral) == target_id,
        moral == 1 ==> redirected_target(target_id, caster_id, moral) == caster_id,
        moral == 2 && (target_id >= 10000 || target_id < -1) ==> redirected_target(
            target_id,
            caster_id,
            moral,
        ) == caster_id,
        moral == 2 && -1 <= target_id <= 9999 ==> redirected_target(target_id, caster_id, moral)
            == target_id,
        moral != 1 && moral != 2 ==> redirected_target(target_id, caster_id, moral) == target_id,
{
}

/// Which skills have an animation to interrupt: those with a first number but -1 and 0 and a
/// casting time, that are no items of group 255 and no answers of mage armors. Which buffs use
/// a scroll up: those of item groups 9 and 255 with an item.
pub proof fn law_animations_and_scrolls(
    t_1: i32,
    cast_time: i16,
    item_group: i16,
    skill_id: u32,
    skill: MagicRow,
)
    requires
        skill.type1 is Some ==> 0 <= skill.type1->0 <= 255,
    ensures
        animated(t_1, cast_time, item_group, skill_id) <==> (t_1 < -1 || t_1 > 0) && cast_time >= 1
            && item_group != 255 && !mage_armor_skill(skill_id),
        scroll_buff(skill) <==> (skill.item_group == Some(9i16) || skill.item_group == Some(
            255i16,
        )) && skill.type1 == Some(4i16) && or_i32(skill.use_item, 0) >= 1,
        skill.type1 is Some ==> skill_type(skill) == skill.type1->0,
        skill.type1 is None ==> skill_type(skill) == 0,
{
}

/// What a caster's own state says. A dead caster but for resurrections, a sitting one who
/// attacks, and a blinking one are passed over; whoever may not attack or keeps a store open,
/// and all but the snowball in its battle, are refused; then a frozen one is passed over. Nothing
/// of blinking and freezing holds up the opcodes that are exempt.
pub proof fn law_casters_state(
    opcode: u8,
    skill_id: u32,
    skill: MagicRow,
    caster: CasterState,
    snow_battle: bool,
)
    ensures
        ({
            let held = opcode != 4 && opcode != 6 && opcode != 7 && opcode != 8 && opcode != 13;
            let gone = (caster.res_hp_type == 3 || caster.hp <= 0) && skill.type1 != Some(5i16);
            let sits = caster.res_hp_type == 2 && (skill.moral == Some(7i16) || skill.moral
                == Some(10i16));
            let first = gone || sits || (held && caster.blinking);
            let barred = caster.attack_disabled || caster.store_open || (caster.zone_id == 69
                && snow_battle && skill_id != 490077);
            let g = caster_gate(opcode, skill_id, skill, caster, snow_battle);
            &&& g is Refuse <==> !first && barred
            &&& g is Ignore <==> first || (!barred && held && caster.frozen)
            &&& g is Pass <==> !first && !barred && !(held && caster.frozen)
        }),
{
}

/// When events stop magic: attacks, until the prison is open, in the Cinderella zone while that
/// war is on and else in a special event zone; anything in a temple zone before its combat
/// phase, attacks there that are not allowed, and players in other rooms; and players in other
/// monster stone rooms.
pub proof fn law_events_stop_magic(moral: i16, target_id: i32, zone_id: u16, e: EventState)
    ensures
        ({
            let at_player = 0 <= target_id <= 9999;
            let war_zone = if e.cinderella_active {
                zone_id == e.cinderella_zone
            } else {
                e.in_special_event_zone
            };
            let rooms_differ = e.caster_room is None || e.target_room is None || e.caster_room->0
                != e.target_room->0;
            event_blocks(moral, target_id, zone_id, e) <==> {
                ||| (moral == 7 || moral == 10) && war_zone && !e.zindan_opened
                ||| e.in_temple_event_zone && !e.temple_attackable
                ||| e.in_temple_event_zone && (moral == 7 || moral == 8 || moral == 12)
                    && !e.event_attack_allowed
                ||| e.in_temple_event_zone && at_player && e.zone_has_rooms && rooms_differ
                ||| e.in_monster_stone_zone && e.monster_stone_status && at_player
                    && !e.same_event_room
            }
        }),
{
}

/// Whether a caster is free: trading and selling pass over the request; skills below 400000 in
/// an enemy safety area, and skills that wait, are refused. The wait counts for all but
/// stealth and exempt opcodes, and an instant cast skips it but for attacks of the survival
/// event and buffs of scrolls.
pub proof fn law_casters_are_free(
    opcode: u8,
    skill_id: u32,
    skill: MagicRow,
    caster: CasterState,
    waiting: bool,
)
    ensures
        ({
            let held = opcode != 4 && opcode != 6 && opcode != 7 && opcode != 8 && opcode != 13;
            let counts = cooldown_counts(
                opcode,
                skill,
                caster.instant_cast,
                caster.manes_unlocked,
            );
            let safe = skill_id <= 399999 && caster.in_enemy_safety_area;
            let g = busy_gate(opcode, skill_id, skill, caster, waiting);
            &&& counts <==> held && skill_type(skill) != 9 && (!caster.instant_cast || scroll_buff(
                skill,
            ) || manes_offensive(caster.manes_unlocked, or_i16(skill.moral, 0)))
            &&& g is Ignore <==> caster.trading || caster.merchanting
            &&& g is Refuse <==> !caster.trading && !caster.merchanting && (safe || (counts
                && waiting))
        }),
{
}

/// For whom the wait of a kind counts: kinds 1 and 3 to 7, of skills below 400000 or unlocked
/// in the survival event, that are no items of group 255, but for the opcode of failures. The
/// first kind does not hold up a prolonged buff or a plain buff of attack speed.
pub proof fn law_kinds_that_wait(
    opcode: u8,
    skill_id: u32,
    skill: MagicRow,
    manes_unlocked: bool,
    attack_speed_buff: bool,
)
    requires
        0 <= or_i16(skill.item_group, 0) <= 255,
        0 <= or_i16(skill.type2, 0) <= 255,
        0 <= or_i16(skill.type1, 0) <= 255,
    ensures
        ({
            let kind = or_i16(skill.type1, 0);
            &&& type_cooldown_counts(opcode, skill_id, skill, manes_unlocked) <==> (kind == 1 || 3
                <= kind <= 7) && (skill_id <= 399999 || manes_unlocked) && skill.item_group
                != Some(255i16) && opcode != 4
            &&& speed_bypass(opcode, skill, attack_speed_buff) <==> opcode == 8 || (kind == 4
                && or_i16(skill.type2, 0) == 0 && attack_speed_buff)
        }),
{
}

/// Whom a skill fits: casters of its nation and class, who stand still in phases 2 and 3 where
/// it asks for that. Nation and class do not matter to opcodes that take an effect back and to
/// skills unlocked in the survival event; the class is the tenth part of the skill's tree.
pub proof fn law_skills_fit_their_caster(
    opcode: u8,
    skill_id: u32,
    skill: MagicRow,
    caster: CasterState,
)
    requires
        or_i16(skill.skill, 0) >= 0,
    ensures
        ({
            let free = opcode == 6 || opcode == 7 || opcode == 13 || caster.manes_unlocked;
            let walks = (opcode == 2 || opcode == 3) && skill.use_standing == Some(1i16)
                && caster.moving;
            let class = or_i16(skill.skill, 0) / 10;
            caster_fits(opcode, skill_id, skill, caster) <==> {
                &&& !walks
                &&& free || !foreign_skill(skill_id, caster.nation)
                &&& free || skill_class_allows(class as i16, caster.class)
            }
        }),
{
}

/// What a target says: no target passes, a dead NPC is passed over, a neutral one is not
/// attacked, and a player must be known.
pub proof fn law_what_targets_say(target_id: i32, moral: i16, target: TargetState)
    ensures
        ({
            let g = target_gate(target_id, moral, target);
            let at_player = 0 <= target_id <= 9999;
            let neutral = target.npc is Some && (target.npc->0.group == 3 || target.npc->0.nation
                == 3);
            &&& target_id == -1 ==> g is Pass
            &&& at_player ==> (g is Pass <==> target.player_known)
            &&& at_player ==> (g is Refuse <==> !target.player_known)
            &&& !at_player && target_id != -1 ==> (g is Ignore <==> target.npc_dead)
            &&& !at_player && target_id != -1 ==> (g is Refuse <==> !target.npc_dead && neutral && (
            moral == 7 || moral == 10))
        }),
{
}

/// When an animation stops a request: another archery skill within 500 milliseconds in the
/// casting phase, and in every other phase a step taken while casting.
pub proof fn law_animations_stop_requests(
    opcode: u8,
    skill_id: u32,
    skill: MagicRow,
    last_id: u32,
    last_time: u64,
    cast_failed: bool,
    now: u64,
)
    ensures
        ({
            let moves = animated(
                or_i32(skill.t_1, 0),
                or_i16(skill.cast_time, 0),
                or_i16(skill.item_group, 0),
                skill_id,
            );
            let stops = animation_blocks(
                opcode,
                skill_id,
                skill,
                last_id,
                last_time,
                cast_failed,
                now,
            );
            &&& opcode == 1 ==> (stops <==> moves && skill.type1 == Some(2i16) && last_id != 0
                && last_id != skill_id && now < last_time + 500)
            &&& opcode != 1 ==> (stops <==> moves && cast_failed)
        }),
{
}

/// What is remembered of an animation: in the casting phase of an archery skill that goes on
/// the skill and the time, and of any that goes on whether the caster moves; later phases
/// forget that. Skills without an animation change nothing, and waiting times stay.
pub proof fn law_animations_are_remembered(
    opcode: u8,
    skill_id: u32,
    skill: MagicRow,
    moving: bool,
    now: u64,
    before: CastMemory,
    after: CastMemory,
)
    requires
        memory_after_animation(opcode, skill_id, skill, moving, now, before, after),
    ensures
        ({
            let moves = animated(
                or_i32(skill.t_1, 0),
                or_i16(skill.cast_time, 0),
                or_i16(skill.item_group, 0),
                skill_id,
            );
            let stops = animation_blocks(
                opcode,
                skill_id,
                skill,
                before.last_type2_skill_id,
                before.last_type2_cast_time,
                before.cast_failed,
                now,
            );
            let shot = moves && opcode == 1 && skill.type1 == Some(2i16) && !stops;
            &&& shot ==> after.last_type2_skill_id == skill_id && after.last_type2_cast_time == now
            &&& !shot ==> after.last_type2_skill_id == before.last_type2_skill_id
                && after.last_type2_cast_time == before.last_type2_cast_time
            &&& moves && opcode == 1 && !stops ==> after.cast_failed == moving
            &&& moves && opcode != 1 ==> !after.cast_failed
            &&& !moves || (opcode == 1 && stops) ==> after.cast_failed == before.cast_failed
            &&& after.skill_cooldowns == before.skill_cooldowns
            &&& after.type_cooldowns == before.type_cooldowns
        }),
{
}

/// The checks come in their order, and the first that does not pass decides: the caster's
/// state, the events, being free, the wait of the kind, the caster's fit, the target, and the
/// animation. A kind that waits refuses area attacks of warriors and all of rogues, and passes
/// over the rest.
pub proof fn law_the_first_check_decides(
    request: MagicInstance,
    skill: MagicRow,
    caster: CasterState,
    event: EventState,
    target: TargetState,
    attack_speed_buff: bool,
    memory: CastMemory,
    now: u64,
)
    ensures
        ({
            let moral = or_i16(skill.moral, 0);
            let id = request.skill_id;
            let op = request.opcode;
            let at = if request.target_id == 0 && 10 <= moral <= 12 {
                -1i32
            } else {
                request.target_id
            };
            let g = cast_gate(request, skill, caster, event, target, attack_speed_buff, memory, now);
            let waits = memory.skill_cooldowns@.dom().contains(id) && memory.skill_cooldowns@[id]
                > now;
            let state = caster_gate(op, id, skill, caster, event.snow_battle);
            let stopped = event_blocks(moral, at, caster.zone_id, event);
            let free = busy_gate(op, id, skill, caster, waits);
            let held = type_cooldown_counts(op, id, skill, caster.manes_unlocked)
                && skill_types_blocked(
                memory.type_cooldowns@,
                skill,
                skill_type(skill),
                or_i16(skill.type2, 0) as u8,
                speed_bypass(op, skill, attack_speed_buff),
                now,
            );
            let fits = caster_fits(op, id, skill, caster);
            let aim = target_gate(at, moral, target);
            let animation = animation_blocks(
                op,
                id,
                skill,
                memory.last_type2_skill_id,
                memory.last_type2_cast_time,
                memory.cast_failed,
                now,
            );
            let job = caster.class % 100;
            let rogue = job == 2 || job == 7 || job == 8;
            &&& !(state is Pass) ==> g == state
            &&& state is Pass && stopped ==> g is Refuse
            &&& state is Pass && !stopped && !(free is Pass) ==> g == free
            &&& state is Pass && !stopped && free is Pass ==> {
                &&& held && (stomp_skill(id) || rogue) ==> g is Refuse
                &&& held && !stomp_skill(id) && !rogue ==> g is Ignore
                &&& !held && !fits ==> g is Refuse
                &&& !held && fits && !(aim is Pass) ==> g == aim
                &&& !held && fits && aim is Pass ==> (g is Refuse <==> animation)
                &&& !held && fits && aim is Pass && !animation ==> g is Pass
            }
        }),
{
}

/// Waiting kinds are touched only by requests that come as far as their check and for which it
/// counts; of all others nothing changes.
pub proof fn law_waits_are_touched_by_their_check(
    request: MagicInstance,
    skill: MagicRow,
    caster: CasterState,
    event: EventState,
    attack_speed_buff: bool,
    memory: CastMemory,
    now: u64,
)
    ensures
        ({
            let r = with_target(request, ground_target(request.target_id, or_i16(skill.moral, 0)));
            let waits = memory.skill_cooldowns@.dom().contains(request.skill_id)
                && memory.skill_cooldowns@[request.skill_id] > now;
            let there = early_gate(r, skill, caster, event, waits) is Pass && type_cooldown_counts(
                request.opcode,
                request.skill_id,
                skill,
                caster.manes_unlocked,
            );
            let after = kinds_after(request, skill, caster, event, attack_speed_buff, memory, now);
            &&& !there ==> after == memory.type_cooldowns@
            &&& there ==> after == entries_after_skill_check(
                memory.type_cooldowns@,
                skill,
                skill_type(skill),
                or_i16(skill.type2, 0) as u8,
                speed_bypass(request.opcode, skill, attack_speed_buff),
                now,
            )
            &&& r.skill_id == request.skill_id && r.opcode == request.opcode
            &&& r.caster_id == request.caster_id && r.data@ == request.data@
        }),
{
}

/// Empty columns of a skill count as 0 in every check.
pub proof fn law_empty_columns_are_0_in_checks(
    request: MagicInstance,
    skill: MagicRow,
    caster: CasterState,
    event: EventState,
    target: TargetState,
    attack_speed_buff: bool,
    memory: CastMemory,
    now: u64,
    flag: bool,
)
    ensures
        ({
            let f = crate::tables::filled_skill(skill);
            let opcode = request.opcode;
            let id = request.skill_id;
            &&& skill_type(f) == skill_type(skill)
            &&& scroll_buff(f) == scroll_buff(skill)
            &&& caster_gate(opcode, id, f, caster, flag) == caster_gate(
                opcode,
                id,
                skill,
                caster,
                flag,
            )
            &&& busy_gate(opcode, id, f, caster, flag) == busy_gate(opcode, id, skill, caster, flag)
            &&& cooldown_counts(opcode, f, flag, true) == cooldown_counts(opcode, skill, flag, true)
            &&& type_cooldown_counts(opcode, id, f, flag) == type_cooldown_counts(
                opcode,
                id,
                skill,
                flag,
            )
            &&& speed_bypass(opcode, f, flag) == speed_bypass(opcode, skill, flag)
            &&& caster_fits(opcode, id, f, caster) == caster_fits(opcode, id, skill, caster)
            &&& animation_blocks(
                opcode,
                id,
                f,
                memory.last_type2_skill_id,
                memory.last_type2_cast_time,
                memory.cast_failed,
                now,
            ) == animation_blocks(
                opcode,
                id,
                skill,
                memory.last_type2_skill_id,
                memory.last_type2_cast_time,
                memory.cast_failed,
                now,
            )
            &&& early_gate(request, f, caster, event, flag) == early_gate(
                request,
                skill,
                caster,
                event,
                flag,
            )
            &&& late_gate(request, f, caster, target) == late_gate(request, skill, caster, target)
            &&& kind_blocks(request, f, caster, attack_speed_buff, memory, now) == kind_blocks(
                request,
                skill,
                caster,
                attack_speed_buff,
                memory,
                now,
            )
            &&& kinds_after(request, f, caster, event, attack_speed_buff, memory, now)
                == kinds_after(request, skill, caster, event, attack_speed_buff, memory, now)
            &&& cast_gate(request, f, caster, event, target, attack_speed_buff, memory, now)
                == cast_gate(request, skill, caster, event, target, attack_speed_buff, memory, now)
            &&& reaches_animation(
                request,
                f,
                caster,
                event,
                target,
                attack_speed_buff,
                memory,
                now,
            ) == reaches_animation(
                request,
                skill,
                caster,
                event,
                target,
                attack_speed_buff,
                memory,
                now,
            )
        }),
{
}

} // verus!
