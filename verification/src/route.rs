//! What a request that has passed its checks does, phase by phase.

use crate::arith::{clamp_i32, clamp_to, or_i16, or_i32};
use crate::cast::{
    is_manes_offensive, is_scroll_buff, manes_offensive, scroll_buff, skill_type, CastMemory,
};
use crate::consume::{
    ammunition, consume_item, item_needed, item_to_take, plan_ammunition, required_item, Ammunition,
};
use crate::cooldown::{
    compute_recast_ms, entries_after_cast, recast_ms, record_type_cooldowns, unexpired,
    COOLDOWN_LIMIT,
};
use crate::instance::{is_player_id, player_id, MagicInstance};
use crate::mana::{check_and_deduct_mana, payment, Payment, Vitals};
use crate::random::roll;
use crate::tables::{MagicRow, MagicType2Row, MagicType3Row, MagicType4Row};
use crate::constants::{
    MORAL_EXTEND_DURATION, SKILLMAGIC_FAIL_ATTACKZERO, ZONE_RONARK_LAND, ZONE_RONARK_LAND_BASE,
};
use vstd::prelude::*;

verus! {

// ---------------------------------------------------------------------------------------------
// Flying
// ---------------------------------------------------------------------------------------------

/// Outcome of the flight phase: what is taken, what is paid, and whether the flight is shown.
#[derive(Clone, Copy, Debug, PartialEq, Eq)]
pub struct FlightOutcome {
    pub take: Option<(u32, u16)>,
    pub payment: Option<Payment>,
    pub shown: bool,
}

/// What the flight phase does. A caster who has moved since the cast began fails; ammunition
/// is taken before the cost is checked and is not given back.
pub open spec fn flight(
    skill: MagicRow,
    moved_since_cast: bool,
    type2: Option<MagicType2Row>,
    manes_unlocked: bool,
    has_infinity_arc: bool,
    held: u32,
    sid: u16,
    class: u16,
    v: Vitals,
    target_id: i32,
) -> FlightOutcome {
    let ammo = ammunition(skill, type2, manes_unlocked, has_infinity_arc, held);
    if (or_i16(skill.flying_effect, 0) != 0 && moved_since_cast) || ammo == Ammunition::Missing {
        FlightOutcome { take: None, payment: None, shown: false }
    } else {
        let p = payment(sid, class, v, skill, target_id);
        FlightOutcome {
            take: match ammo {
                Ammunition::Take { item, count } => Some((item, count)),
                _ => None,
            },
            payment: Some(p),
            shown: p.accepted,
        }
    }
}

/// Work out the flight phase.
pub fn plan_flight(
    skill: &MagicRow,
    moved_since_cast: bool,
    type2: &Option<MagicType2Row>,
    manes_unlocked: bool,
    has_infinity_arc: bool,
    held: u32,
    sid: u16,
    class: u16,
    v: &Vitals,
    target_id: i32,
) -> (r: FlightOutcome)
    ensures
        r == flight(
            *skill,
            moved_since_cast,
            *type2,
            manes_unlocked,
            has_infinity_arc,
            held,
            sid,
            class,
            *v,
            target_id,
        ),
{
    let nothing = FlightOutcome { take: None, payment: None, shown: false };
    if skill.flying_effect.unwrap_or(0) != 0 && moved_since_cast {
        return nothing;
    }
    let take: Option<(u32, u16)> = match plan_ammunition(
        skill,
        type2,
        manes_unlocked,
        has_infinity_arc,
        held,
    ) {
        Ammunition::Missing => {
            return nothing;
        },
        Ammunition::Take { item, count } => Some((item, count)),
        Ammunition::Free => None,
    };
    let p = check_and_deduct_mana(sid, class, v, skill, target_id);
    FlightOutcome { take, payment: Some(p), shown: p.accepted }
}

// ---------------------------------------------------------------------------------------------
// Effecting
// ---------------------------------------------------------------------------------------------

/// What is known about the moment in which a skill takes effect.
#[derive(Clone, Copy, Debug)]
pub struct EffectFacts {
    pub zone_id: u16,
    pub manes_unlocked: bool,
    pub moved_since_cast: bool,
    pub has_list_item: bool,
    pub warp_possible: bool,
    pub genie_active: bool,
    pub in_pvp_zone: bool,
    pub nation: u8,
    pub target_nation: Option<u8>,
    pub has_required_item: bool,
}

/// What happens next in the effect phase.
#[derive(Clone, Copy, Debug, PartialEq, Eq, Structural)]
pub enum EffectStep {
    OpenTransformList,
    Refuse,
    Miss,
    Execute,
}

/// Outcome of the effect phase up to the execution, with what the caster has paid on the way.
#[derive(Clone, Copy, Debug, PartialEq, Eq, Structural)]
pub struct EffectPlan {
    pub step: EffectStep,
    pub payment: Option<Payment>,
}

/// Skills that open the list of shapes of a transformation item. They do not in the war zones.
pub open spec fn opens_transform_list(skill: MagicRow, zone_id: u16) -> bool {
    &&& or_i16(skill.type1, 0) == 0
    &&& or_i16(skill.type2, 0) != 0
    &&& or_i32(skill.use_item, 0) != 0
    &&& !(ZONE_RONARK_LAND <= zone_id <= ZONE_RONARK_LAND_BASE)
}

/// Chance in percent that offensive survival magic lands.
pub open spec fn manes_rate(skill: MagicRow) -> int {
    clamp_to(or_i16(skill.success_rate, 100) as int, 1, 85)
}

/// Whether a roll lets offensive survival magic land.
pub open spec fn manes_hit(skill: MagicRow, roll: i32) -> bool {
    roll <= manes_rate(skill)
}

/// Whether a roll of 1 to 100 lets offensive survival magic land.
pub fn manes_lands(skill: &MagicRow, roll: i32) -> (r: bool)
    ensures
        r == manes_hit(*skill, roll),
{
    let rate: i32 = clamp_i32(skill.success_rate.unwrap_or(100) as i32, 1, 85);
    roll <= rate
}

/// What the effect phase does for a given roll. The cost is paid before the genie and the item
/// are checked, and is not given back; archery has been paid in flight.
pub open spec fn effect_plan(
    request: MagicInstance,
    skill: MagicRow,
    facts: EffectFacts,
    roll: i32,
    sid: u16,
    class: u16,
    v: Vitals,
) -> EffectPlan {
    let t = skill_type(skill);
    let paid = payment(sid, class, v, skill, request.target_id);
    let needed = item_needed(skill, t, facts.manes_unlocked);
    if opens_transform_list(skill, facts.zone_id) {
        EffectPlan {
            step: if facts.has_list_item {
                EffectStep::OpenTransformList
            } else {
                EffectStep::Refuse
            },
            payment: None,
        }
    } else if or_i16(skill.flying_effect, 0) == 0 && facts.moved_since_cast {
        EffectPlan { step: EffectStep::Refuse, payment: None }
    } else if manes_offensive(facts.manes_unlocked, or_i16(skill.moral, 0)) && roll > manes_rate(
        skill,
    ) {
        EffectPlan { step: EffectStep::Miss, payment: None }
    } else if t == 8 && !facts.warp_possible {
        EffectPlan { step: EffectStep::Refuse, payment: None }
    } else if t != 2 && !paid.accepted {
        EffectPlan { step: EffectStep::Refuse, payment: Some(paid) }
    } else {
        let genie_forbids = player_id(request.target_id) && facts.genie_active
            && facts.target_nation is Some && facts.target_nation->0 != facts.nation
            && facts.in_pvp_zone;
        EffectPlan {
            step: if genie_forbids || (needed is Some && !facts.has_required_item) {
                EffectStep::Refuse
            } else {
                EffectStep::Execute
            },
            payment: if t != 2 {
                Some(paid)
            } else {
                None
            },
        }
    }
}

/// Work out the effect phase for a given roll.
pub fn plan_effect(
    request: &MagicInstance,
    skill: &MagicRow,
    facts: &EffectFacts,
    roll: i32,
    sid: u16,
    class: u16,
    v: &Vitals,
) -> (r: EffectPlan)
    ensures
        r == effect_plan(*request, *skill, *facts, roll, sid, class, *v),
{
    let t: u8 = skill.type1.unwrap_or(0) as u8;
    if skill.type1.unwrap_or(0) == 0 && skill.type2.unwrap_or(0) != 0 && skill.use_item.unwrap_or(0)
        != 0 && !(facts.zone_id >= ZONE_RONARK_LAND && facts.zone_id <= ZONE_RONARK_LAND_BASE) {
        let step = if facts.has_list_item {
            EffectStep::OpenTransformList
        } else {
            EffectStep::Refuse
        };
        return EffectPlan { step, payment: None };
    }
    if skill.flying_effect.unwrap_or(0) == 0 && facts.moved_since_cast {
        return EffectPlan { step: EffectStep::Refuse, payment: None };
    }
    if is_manes_offensive(facts.manes_unlocked, skill.moral.unwrap_or(0)) && !manes_lands(
        skill,
        roll,
    ) {
        return EffectPlan { step: EffectStep::Miss, payment: None };
    }
    if t == 8 && !facts.warp_possible {
        return EffectPlan { step: EffectStep::Refuse, payment: None };
    }
    let mut paid: Option<Payment> = None;
    if t != 2 {
        let p = check_and_deduct_mana(sid, class, v, skill, request.target_id);
        paid = Some(p);
        if !p.accepted {
            return EffectPlan { step: EffectStep::Refuse, payment: paid };
        }
    }
    if is_player_id(request.target_id) && facts.genie_active {
        match facts.target_nation {
            Some(n) => {
                if n != facts.nation && facts.in_pvp_zone {
                    return EffectPlan { step: EffectStep::Refuse, payment: paid };
                }
            },
            None => {},
        }
    }
    match required_item(skill, t, facts.manes_unlocked) {
        Some(_) => {
            if !facts.has_required_item {
                return EffectPlan { step: EffectStep::Refuse, payment: paid };
            }
        },
        None => {},
    }
    EffectPlan { step: EffectStep::Execute, payment: paid }
}

/// Work out the effect phase with a roll of the dice.
pub fn roll_effect(
    request: &MagicInstance,
    skill: &MagicRow,
    facts: &EffectFacts,
    sid: u16,
    class: u16,
    v: &Vitals,
) -> (r: EffectPlan)
    ensures
        exists|x: i32|
            1 <= x <= 100 && r == #[trigger] effect_plan(
                *request,
                *skill,
                *facts,
                x,
                sid,
                class,
                *v,
            ),
{
    let x: i32 = roll(1, 100);
    plan_effect(request, skill, facts, x, sid, class, v)
}

/// Waiting time after offensive survival magic has missed.
pub const MANES_MIN_RECAST_MS: u64 = 900;

/// What a cast leaves behind besides its effect.
#[derive(Clone, Copy, Debug, PartialEq, Eq, Structural)]
pub struct CastReceipt {
    pub take_item: Option<u32>,
    pub end_instant_cast: bool,
}

/// The skill cooldowns after `skill_id` was told to wait until `expiry`.
pub open spec fn cooldowns_with(
    m: Map<u32, u64>,
    skill_id: u32,
    expiry: u64,
    now: u64,
) -> Map<u32, u64> {
    let with_new = m.insert(skill_id, expiry);
    if with_new.dom().len() > COOLDOWN_LIMIT {
        unexpired(with_new, now)
    } else {
        with_new
    }
}

/// Whether a finished cast starts the skill's own cooldown.
pub open spec fn starts_cooldown(skill: MagicRow, instant_cast: bool, manes_unlocked: bool) -> bool {
    let offensive = manes_offensive(manes_unlocked, or_i16(skill.moral, 0));
    &&& recast_ms(or_i16(skill.recast_time, 0), scroll_buff(skill), offensive) > 0
    &&& !instant_cast || offensive || scroll_buff(skill)
}

/// What a finished cast leaves behind: its item is taken and its cooldowns run.
///
/// An instant cast starts no cooldown of its own, save for scroll buffs and offensive survival
/// magic, and none of its kind; it is used up by anything but archery.
pub open spec fn cast_finished(
    r: CastReceipt,
    after: CastMemory,
    before: CastMemory,
    skill_id: u32,
    skill: MagicRow,
    instant_cast: bool,
    manes_unlocked: bool,
    now: u64,
) -> bool {
    &&& r.take_item == (if skill_type(skill) != 2 && !manes_unlocked {
        item_to_take(skill)
    } else {
        None
    })
    &&& r.end_instant_cast == (instant_cast && skill_type(skill) != 2)
    &&& after.skill_cooldowns@ == (if starts_cooldown(skill, instant_cast, manes_unlocked) {
        cooldowns_with(
            before.skill_cooldowns@,
            skill_id,
            (now + recast_ms(
                or_i16(skill.recast_time, 0),
                scroll_buff(skill),
                manes_offensive(manes_unlocked, or_i16(skill.moral, 0)),
            )) as u64,
            now,
        )
    } else {
        before.skill_cooldowns@
    })
    &&& after.type_cooldowns@ == (if instant_cast {
        before.type_cooldowns@
    } else {
        entries_after_cast(
            before.type_cooldowns@,
            skill_type(skill),
            or_i16(skill.type2, 0) as u8,
            or_i32(skill.t_1, 0),
            now,
        )
    })
    &&& after.last_type2_skill_id == before.last_type2_skill_id
    &&& after.last_type2_cast_time == before.last_type2_cast_time
    &&& after.cast_failed == before.cast_failed
}

/// Settle a finished cast: start the cooldowns, take the item, end an instant cast.
pub fn finish_cast(
    memory: &mut CastMemory,
    skill_id: u32,
    skill: &MagicRow,
    instant_cast: bool,
    manes_unlocked: bool,
    now: u64,
) -> (r: CastReceipt)
    requires
        now <= u64::MAX - 3000000,
    ensures
        cast_finished(
            r,
            *final(memory),
            *old(memory),
            skill_id,
            *skill,
            instant_cast,
            manes_unlocked,
            now,
        ),
{
    let t: u8 = skill.type1.unwrap_or(0) as u8;
    let take_item: Option<u32> = if t != 2 && !manes_unlocked {
        consume_item(skill)
    } else {
        None
    };
    let offensive: bool = is_manes_offensive(manes_unlocked, skill.moral.unwrap_or(0));
    let scroll: bool = is_scroll_buff(skill);
    let wait: u64 = compute_recast_ms(skill.recast_time.unwrap_or(0), scroll, offensive);
    if wait > 0 && (!instant_cast || offensive || scroll) {
        memory.skill_cooldowns.set(skill_id, now + wait, now);
    }
    if !instant_cast {
        record_type_cooldowns(
            &mut memory.type_cooldowns,
            t,
            skill.type2.unwrap_or(0) as u8,
            skill.t_1.unwrap_or(0),
            now,
        );
    }
    CastReceipt { take_item, end_instant_cast: instant_cast && t != 2 }
}

/// Settle a cast that was carried out. One that did not land leaves nothing behind.
pub fn complete_cast(
    memory: &mut CastMemory,
    skill_id: u32,
    skill: &MagicRow,
    instant_cast: bool,
    manes_unlocked: bool,
    landed: bool,
    now: u64,
) -> (r: Option<CastReceipt>)
    requires
        now <= u64::MAX - 3000000,
    ensures
        match r {
            Some(receipt) => landed && cast_finished(
                receipt,
                *final(memory),
                *old(memory),
                skill_id,
                *skill,
                instant_cast,
                manes_unlocked,
                now,
            ),
            None => !landed && *final(memory) == *old(memory),
        },
{
    if !landed {
        return None;
    }
    Some(finish_cast(memory, skill_id, skill, instant_cast, manes_unlocked, now))
}

/// Whether a request is another one whose cast has missed.
pub open spec fn missed_request(after: MagicInstance, before: MagicInstance) -> bool {
    &&& after.opcode == before.opcode
    &&& after.skill_id == before.skill_id
    &&& after.caster_id == before.caster_id
    &&& after.target_id == before.target_id
    &&& after.data@ == before.data@.update(3, SKILLMAGIC_FAIL_ATTACKZERO)
}

/// Whether a memory is another one after a cast of a skill has missed.
pub open spec fn missed_memory(
    after: CastMemory,
    before: CastMemory,
    skill_id: u32,
    now: u64,
) -> bool {
    &&& after.skill_cooldowns@ == before.skill_cooldowns@.insert(
        skill_id,
        (now + MANES_MIN_RECAST_MS) as u64,
    )
    &&& after.type_cooldowns@ == before.type_cooldowns@
    &&& after.last_type2_skill_id == before.last_type2_skill_id
    &&& after.last_type2_cast_time == before.last_type2_cast_time
    &&& after.cast_failed == before.cast_failed
}

/// Settle a missed cast of offensive survival magic: it waits, and the fourth data word says
/// that nothing was hit.
pub fn settle_miss(request: &mut MagicInstance, memory: &mut CastMemory, now: u64)
    requires
        now <= u64::MAX - 3000000,
    ensures
        missed_request(*final(request), *old(request)),
        missed_memory(*final(memory), *old(memory), old(request).skill_id, now),
{
    memory.skill_cooldowns.insert(request.skill_id, now + MANES_MIN_RECAST_MS);
    request.data[3] = SKILLMAGIC_FAIL_ATTACKZERO;
}

// ---------------------------------------------------------------------------------------------
// Execution by type
// ---------------------------------------------------------------------------------------------

/// Which execution a skill gets, and whether its caster's stealth ends first.
#[derive(Clone, Copy, Debug, PartialEq, Eq, Structural)]
pub struct ExecutionRoute {
    pub ends_stealth: bool,
    pub run: Option<u8>,
}

/// Whether a caster who may not use skills is held back from one; buffs and general skills
/// still work.
pub open spec fn skills_blocked(can_use_skills: bool, t: u8, skill_id: u32) -> bool {
    !can_use_skills && t != 4 && skill_id < 300000
}

/// Whether a caster who may not use skills is held back from one.
pub fn is_skill_blocked(can_use_skills: bool, t: u8, skill_id: u32) -> (r: bool)
    ensures
        r == skills_blocked(can_use_skills, t, skill_id),
{
    !can_use_skills && t != 4 && skill_id < 300000
}

/// The execution that a skill gets. Attacks end the caster's stealth, even where a heal over
/// time is then withheld because its target has one already.
pub open spec fn execution_route(
    skill: MagicRow,
    skill_id: u32,
    can_use_skills: bool,
    type3: Option<MagicType3Row>,
    target_has_hot: bool,
) -> ExecutionRoute {
    let t = skill_type(skill);
    let attack = 1 <= t <= 3 || t == 7;
    let second_hot = t == 3 && or_i16(skill.type2, 0) == 0 && type3 is Some && or_i32(
        type3->0.duration,
        0,
    ) != 0 && or_i32(type3->0.direct_type, 0) == 1 && target_has_hot;
    if t == 0 || skills_blocked(can_use_skills, t, skill_id) {
        ExecutionRoute { ends_stealth: false, run: None }
    } else {
        ExecutionRoute {
            ends_stealth: attack,
            run: if second_hot || t > 9 {
                None
            } else {
                Some(t)
            },
        }
    }
}

/// Find the execution that a skill gets.
pub fn execute_skill(
    skill: &MagicRow,
    skill_id: u32,
    can_use_skills: bool,
    type3: &Option<MagicType3Row>,
    target_has_hot: bool,
) -> (r: ExecutionRoute)
    ensures
        r == execution_route(*skill, skill_id, can_use_skills, *type3, target_has_hot),
{
    let t: u8 = skill.type1.unwrap_or(0) as u8;
    if t == 0 {
        return ExecutionRoute { ends_stealth: false, run: None };
    }
    if is_skill_blocked(can_use_skills, t, skill_id) {
        return ExecutionRoute { ends_stealth: false, run: None };
    }
    let ends_stealth: bool = matches!(t, 1..=3 | 7);
    if t == 3 && skill.type2.unwrap_or(0) == 0 {
        match type3 {
            Some(row) => {
                if row.duration.unwrap_or(0) != 0 && row.direct_type.unwrap_or(0) == 1
                    && target_has_hot {
                    return ExecutionRoute { ends_stealth, run: None };
                }
            },
            None => {},
        }
    }
    ExecutionRoute {
        ends_stealth,
        run: if t <= 9 {
            Some(t)
        } else {
            None
        },
    }
}

/// The session whose heal over time counts for a cast.
pub open spec fn hot_sid(target_id: i32, caster_sid: u16) -> u16 {
    if target_id < 0 {
        caster_sid
    } else {
        target_id as u16
    }
}

/// The session whose heal over time is looked at before another is given: the target, or the
/// caster where nobody was aimed at.
pub fn hot_session(target_id: i32, caster_sid: u16) -> (r: u16)
    ensures
        r == hot_sid(target_id, caster_sid),
{
    if target_id < 0 {
        caster_sid
    } else {
        target_id as u16
    }
}

// ---------------------------------------------------------------------------------------------
// Cancelling and prolonging
// ---------------------------------------------------------------------------------------------

/// Buff numbers that a player cannot take off: the range of debuffs.
pub open spec fn locked_buff(buff_type: i32) -> bool {
    buff_type <= 0 || 100 <= buff_type <= 200
}

/// What a cancel request takes away.
#[derive(Clone, Copy, Debug, PartialEq, Eq, Structural)]
pub struct CancelPlan {
    pub clear_hots: bool,
    pub remove_buff: Option<i32>,
    pub cancel_transformation: bool,
    pub remove_stealth: bool,
    pub shown: bool,
}

/// What is known about the skill that a cancel request names.
#[derive(Clone, Copy, Debug)]
pub struct CancelFacts {
    pub aimed_at_self: bool,
    pub has_type3: bool,
    pub buff_type: Option<i32>,
    pub lockable_scroll: bool,
    pub slot_debuffed: bool,
    pub transformed: bool,
    pub has_type6: bool,
    pub has_type9: bool,
}

/// What a cancel request takes away. Only one's own heals over time and buffs can be taken
/// off. A scroll buff whose slot holds a debuff stays, and ends the request there.
pub open spec fn cancel_plan(skill_id: u32, facts: CancelFacts) -> CancelPlan {
    let own_buff = facts.aimed_at_self && facts.buff_type is Some && !locked_buff(
        facts.buff_type->0,
    );
    let locked = own_buff && skill_id > 500000 && facts.lockable_scroll && facts.slot_debuffed;
    CancelPlan {
        clear_hots: facts.aimed_at_self && facts.has_type3,
        remove_buff: if own_buff && !locked {
            facts.buff_type
        } else {
            None
        },
        cancel_transformation: !locked && facts.transformed && facts.has_type6,
        remove_stealth: !locked && facts.has_type9,
        shown: !locked,
    }
}

/// Work out what a cancel request takes away.
pub fn plan_cancel(skill_id: u32, facts: &CancelFacts) -> (r: CancelPlan)
    ensures
        r == cancel_plan(skill_id, *facts),
{
    let mut plan = CancelPlan {
        clear_hots: facts.aimed_at_self && facts.has_type3,
        remove_buff: None,
        cancel_transformation: false,
        remove_stealth: false,
        shown: false,
    };
    if facts.aimed_at_self {
        match facts.buff_type {
            Some(b) => {
                let debuff: bool = b >= 100 && b <= 200;
                if b > 0 && !debuff {
                    if skill_id > 500000 && facts.lockable_scroll && facts.slot_debuffed {
                        return plan;
                    }
                    plan.remove_buff = Some(b);
                }
            },
            None => {},
        }
    }
    plan.cancel_transformation = facts.transformed && facts.has_type6;
    plan.remove_stealth = facts.has_type9;
    plan.shown = true;
    plan
}

/// An inventory slot, with what its item's template says.
#[derive(Clone, Copy, Debug)]
pub struct BagItem {
    pub item_id: u32,
    /// The item's kind; `None` where the item has no template.
    pub kind: Option<i32>,
    pub effect1: i32,
    /// Moral of the skill that `effect1` names; `None` where there is no such skill.
    pub effect_moral: Option<i16>,
}

/// Items that prolong a buff.
pub open spec fn duration_item(item: BagItem) -> bool {
    &&& item.item_id != 0
    &&& item.kind == Some(255i32)
    &&& item.effect1 != 0
    &&& item.effect_moral == Some(MORAL_EXTEND_DURATION)
}

/// Whether an item prolongs a buff.
fn is_duration_item(item: &BagItem) -> (r: bool)
    ensures
        r == duration_item(*item),
{
    if item.item_id == 0 || item.effect1 == 0 {
        return false;
    }
    match (item.kind, item.effect_moral) {
        (Some(k), Some(m)) => k == 255 && m == MORAL_EXTEND_DURATION,
        _ => false,
    }
}

/// The first item of a bag that prolongs a buff.
pub fn find_duration_item(bag: &Vec<BagItem>) -> (r: Option<u32>)
    ensures
        match r {
            Some(id) => exists|i: int|
                0 <= i < bag@.len() && duration_item(#[trigger] bag@[i]) && bag@[i].item_id == id
                    && forall|j: int| 0 <= j < i ==> !duration_item(#[trigger] bag@[j]),
            None => forall|i: int| 0 <= i < bag@.len() ==> !duration_item(#[trigger] bag@[i]),
        },
{
    let mut i: usize = 0;
    while i < bag.len()
        invariant
            0 <= i <= bag@.len(),
            forall|j: int| 0 <= j < i ==> !duration_item(#[trigger] bag@[j]),
        decreases bag@.len() - i,
    {
        if is_duration_item(&bag[i]) {
            assert(duration_item(bag@[i as int]));
            return Some(bag[i].item_id);
        }
        i = i + 1;
    }
    None
}

/// What prolonging a buff takes and gives.
#[derive(Clone, Copy, Debug, PartialEq, Eq, Structural)]
pub struct ExtendPlan {
    pub item_id: u32,
    pub buff_type: i32,
    pub seconds: u32,
}

/// Whether a plan is that of prolonging a buff with the items of a bag.
pub open spec fn is_extend_plan(
    r: Option<ExtendPlan>,
    skill_id: u32,
    type4: Option<MagicType4Row>,
    bag: Seq<BagItem>,
) -> bool {
    match r {
        Some(plan) => {
            &&& skill_id < 500000
            &&& type4 is Some
            &&& plan.buff_type == or_i32(type4->0.buff_type, 0)
            &&& !locked_buff(plan.buff_type)
            &&& plan.seconds == or_i32(type4->0.duration, 0) as u32
            &&& exists|i: int|
                0 <= i < bag.len() && duration_item(#[trigger] bag[i]) && bag[i].item_id
                    == plan.item_id && forall|j: int|
                    0 <= j < i ==> !duration_item(#[trigger] bag[j])
        },
        None => {
            ||| skill_id >= 500000
            ||| type4 is None
            ||| locked_buff(or_i32(type4->0.buff_type, 0))
            ||| forall|i: int| 0 <= i < bag.len() ==> !duration_item(#[trigger] bag[i])
        },
    }
}

/// Work out whether a buff can be prolonged, with which item and by how much. Scroll buffs and
/// debuffs cannot.
pub fn plan_extend(
    skill_id: u32,
    type4: &Option<MagicType4Row>,
    bag: &Vec<BagItem>,
) -> (r: Option<ExtendPlan>)
    ensures
        is_extend_plan(r, skill_id, *type4, bag@),
{
    if skill_id >= 500000 {
        return None;
    }
    match type4 {
        Some(row) => {
            let buff_type: i32 = row.buff_type.unwrap_or(0);
            let debuff: bool = buff_type >= 100 && buff_type <= 200;
            if buff_type > 0 && !debuff {
                match find_duration_item(bag) {
                    Some(item_id) => Some(
                        ExtendPlan {
                            item_id,
                            buff_type,
                            seconds: row.duration.unwrap_or(0) as u32,
                        },
                    ),
                    None => None,
                }
            } else {
                None
            }
        },
        None => None,
    }
}

// ---------------------------------------------------------------------------------------------
// Laws
// ---------------------------------------------------------------------------------------------

/// Nobody can take a debuff off with a cancel request, nor anybody else's buff.
pub proof fn law_debuffs_cannot_be_cancelled(skill_id: u32, facts: CancelFacts)
    ensures
        match cancel_plan(skill_id, facts).remove_buff {
            Some(b) => facts.aimed_at_self && b > 0 && !(100 <= b <= 200),
            None => true,
        },
{
}

/// An effect is executed only after its cost was accepted, with the needed item at hand.
pub proof fn law_execution_is_paid_for(
    request: MagicInstance,
    skill: MagicRow,
    facts: EffectFacts,
    roll: i32,
    sid: u16,
    class: u16,
    v: Vitals,
)
    requires
        effect_plan(request, skill, facts, roll, sid, class, v).step == EffectStep::Execute,
    ensures
        skill_type(skill) != 2 ==> payment(sid, class, v, skill, request.target_id).accepted,
        item_needed(skill, skill_type(skill), facts.manes_unlocked) is Some
            ==> facts.has_required_item,
{
}

/// Offensive survival magic always has a chance to miss: the highest rolls never land, and a
/// roll of 1 always does.
pub proof fn law_manes_magic_can_miss(skill: MagicRow)
    ensures
        1 <= manes_rate(skill) <= 85,
{
}

/// After a cast a skill with a recast time waits for it, and is ready afterwards.
pub proof fn law_cast_skill_waits(
    m: Map<u32, u64>,
    skill_id: u32,
    wait: u64,
    now: u64,
    later: u64,
)
    requires
        0 < wait,
        now <= later,
        now + wait <= u64::MAX,
    ensures
        ({
            let after = cooldowns_with(m, skill_id, (now + wait) as u64, now);
            (after.dom().contains(skill_id) && later < after[skill_id]) == (later < now + wait)
        }),
{
}

/// How the flight phase goes. It fails, and costs nothing, where the caster has moved in a skill
/// that flies or ammunition is missing. Otherwise ammunition is taken, the cost is asked for,
/// and the flight is shown where it is accepted.
pub proof fn law_how_flights_go(
    skill: MagicRow,
    moved: bool,
    type2: Option<MagicType2Row>,
    manes_unlocked: bool,
    has_infinity_arc: bool,
    held: u32,
    sid: u16,
    class: u16,
    v: Vitals,
    target_id: i32,
)
    ensures
        ({
            let ammo = ammunition(skill, type2, manes_unlocked, has_infinity_arc, held);
            let flies = skill.flying_effect is Some && skill.flying_effect->0 != 0;
            let fails = (flies && moved) || ammo is Missing;
            let r = flight(
                skill,
                moved,
                type2,
                manes_unlocked,
                has_infinity_arc,
                held,
                sid,
                class,
                v,
                target_id,
            );
            &&& fails ==> r.take is None && r.payment is None && !r.shown
            &&& !fails ==> {
                &&& r.payment is Some
                &&& r.payment->0 == payment(sid, class, v, skill, target_id)
                &&& r.shown == r.payment->0.accepted
                &&& match r.take {
                    Some((item, count)) => ammo == (Ammunition::Take { item, count }),
                    None => !(ammo is Take),
                }
            }
        }),
{
}

/// Which skills open a list of shapes: those of no first type, with a second one and an item,
/// outside of zones 71, 72 and 73.
pub proof fn law_which_skills_open_lists(skill: MagicRow, zone_id: u16)
    ensures
        opens_transform_list(skill, zone_id) <==> {
            &&& skill.type1 is None || skill.type1 == Some(0i16)
            &&& skill.type2 is Some && skill.type2 != Some(0i16)
            &&& skill.use_item is Some && skill.use_item != Some(0i32)
            &&& zone_id != 71 && zone_id != 72 && zone_id != 73
        },
{
}

/// How often offensive survival magic lands: at its own rate, between 1 and 85 in a hundred, and
/// at 85 where it has none.
pub proof fn law_how_often_manes_magic_lands(skill: MagicRow, roll: i32)
    ensures
        skill.success_rate is None ==> (manes_hit(skill, roll) <==> roll <= 85),
        skill.success_rate is Some ==> {
            let rate = skill.success_rate->0;
            &&& 1 <= rate <= 85 ==> (manes_hit(skill, roll) <==> roll <= rate)
            &&& rate < 1 ==> (manes_hit(skill, roll) <==> roll <= 1)
            &&& rate > 85 ==> (manes_hit(skill, roll) <==> roll <= 85)
        },
{
}

/// How the effect phase goes, in its order. A list of shapes opens with its item; a caster who
/// has moved is refused; offensive survival magic can miss; a warp must be possible. Then every
/// skill but archery is paid for, and only then do the genie and a missing item refuse.
pub proof fn law_effects_come_in_order(
    request: MagicInstance,
    skill: MagicRow,
    facts: EffectFacts,
    roll: i32,
    sid: u16,
    class: u16,
    v: Vitals,
)
    ensures
        ({
            let t = skill_type(skill);
            let moral = or_i16(skill.moral, 0);
            let list = opens_transform_list(skill, facts.zone_id);
            let moved = or_i16(skill.flying_effect, 0) == 0 && facts.moved_since_cast;
            let misses = facts.manes_unlocked && (moral == 7 || moral == 8 || moral == 10 || moral
                == 12) && !manes_hit(skill, roll);
            let stuck = t == 8 && !facts.warp_possible;
            let asked = !list && !moved && !misses && !stuck && t != 2;
            let paid = payment(sid, class, v, skill, request.target_id);
            let genie = 0 <= request.target_id <= 9999 && facts.genie_active && facts.in_pvp_zone
                && facts.target_nation is Some && facts.target_nation->0 != facts.nation;
            let lacks = item_needed(skill, t, facts.manes_unlocked) is Some
                && !facts.has_required_item;
            let r = effect_plan(request, skill, facts, roll, sid, class, v);
            &&& r.step is OpenTransformList <==> list && facts.has_list_item
            &&& r.step is Miss <==> !list && !moved && misses
            &&& r.step is Execute <==> !list && !moved && !misses && !stuck && (t == 2
                || paid.accepted) && !genie && !lacks
            &&& asked ==> r.payment == Some(paid)
            &&& !asked ==> r.payment is None
        }),
{
}

/// What a finished cast leaves behind. Its item is taken, but for archery and survival magic; an
/// instant cast ends with anything but archery. A skill with a wait waits for it from now on,
/// but for plain skills that were cast instantly, and no other skill's wait changes but those
/// that are over and may be forgotten. An instant cast makes no kind of magic wait.
pub proof fn law_what_finished_casts_leave(
    r: CastReceipt,
    after: CastMemory,
    before: CastMemory,
    skill_id: u32,
    skill: MagicRow,
    instant_cast: bool,
    manes_unlocked: bool,
    now: u64,
    other: u32,
)
    requires
        cast_finished(r, after, before, skill_id, skill, instant_cast, manes_unlocked, now),
        now <= u64::MAX - 3000000,
        other != skill_id,
    ensures
        ({
            let archery = skill_type(skill) == 2;
            let moral = or_i16(skill.moral, 0);
            let offensive = manes_unlocked && (moral == 7 || moral == 8 || moral == 10 || moral
                == 12);
            let wait = recast_ms(or_i16(skill.recast_time, 0), scroll_buff(skill), offensive);
            let waits = wait >= 1 && (!instant_cast || offensive || scroll_buff(skill));
            let was = before.skill_cooldowns@;
            let is = after.skill_cooldowns@;
            &&& archery || manes_unlocked ==> r.take_item is None
            &&& !archery && !manes_unlocked ==> r.take_item == item_to_take(skill)
            &&& r.end_instant_cast <==> instant_cast && !archery
            &&& waits ==> is.dom().contains(skill_id) && is[skill_id] - now == wait
            &&& !waits ==> is == was
            &&& is.dom().contains(other) ==> was.dom().contains(other) && is[other] == was[other]
            &&& was.dom().contains(other) && was[other] > now ==> is.dom().contains(other)
            &&& instant_cast ==> after.type_cooldowns@ == before.type_cooldowns@
            &&& !instant_cast ==> after.type_cooldowns@ == entries_after_cast(
                before.type_cooldowns@,
                skill_type(skill),
                or_i16(skill.type2, 0) as u8,
                or_i32(skill.t_1, 0),
                now,
            )
            &&& after.last_type2_skill_id == before.last_type2_skill_id
            &&& after.last_type2_cast_time == before.last_type2_cast_time
            &&& after.cast_failed == before.cast_failed
        }),
{
    let moral = or_i16(skill.moral, 0);
    let offensive = manes_unlocked && (moral == 7 || moral == 8 || moral == 10 || moral == 12);
    assert(offensive == manes_offensive(manes_unlocked, moral));
    assert(0 <= recast_ms(or_i16(skill.recast_time, 0), scroll_buff(skill), offensive) <= 3000000);
}

/// What forgetting does to waits: beyond 50 of them those that are over are forgotten, and else
/// none.
pub proof fn law_when_waits_are_forgotten(
    m: Map<u32, u64>,
    skill_id: u32,
    expiry: u64,
    now: u64,
    other: u32,
)
    requires
        other != skill_id,
        m.dom().contains(other),
    ensures
        ({
            let after = cooldowns_with(m, skill_id, expiry, now);
            let many = m.insert(skill_id, expiry).dom().len() >= 51;
            &&& !many ==> after.dom().contains(other) && after[other] == m[other]
            &&& many ==> (after.dom().contains(other) <==> m[other] > now)
        }),
{
}

/// What a miss leaves behind: the fourth word says that nothing was hit, and that skill alone
/// waits for 900 from now on.
pub proof fn law_what_misses_leave(
    request: MagicInstance,
    asked: MagicInstance,
    after: CastMemory,
    before: CastMemory,
    now: u64,
    i: int,
    other: u32,
)
    requires
        missed_request(request, asked),
        missed_memory(after, before, asked.skill_id, now),
        now <= u64::MAX - 3000000,
        0 <= i < 7,
        other != asked.skill_id,
    ensures
        request.opcode == asked.opcode && request.skill_id == asked.skill_id,
        request.caster_id == asked.caster_id && request.target_id == asked.target_id,
        request.data@[3] == -104,
        i != 3 ==> request.data@[i] == asked.data@[i],
        after.skill_cooldowns@.dom().contains(asked.skill_id),
        after.skill_cooldowns@[asked.skill_id] - now == 900,
        after.skill_cooldowns@.dom().contains(other)
            == before.skill_cooldowns@.dom().contains(other),
        after.skill_cooldowns@.dom().contains(other) ==> after.skill_cooldowns@[other]
            == before.skill_cooldowns@[other],
        after.type_cooldowns@ == before.type_cooldowns@,
        after.last_type2_skill_id == before.last_type2_skill_id,
        after.last_type2_cast_time == before.last_type2_cast_time,
        after.cast_failed == before.cast_failed,
{
}

/// Which execution a skill gets: that of its type, 1 to 9. Who may not use skills can still use
/// buffs and the general skills from 300000 on. Types 1, 2, 3 and 7 end stealth. A second heal
/// over time is withheld from a target that has one.
pub proof fn law_which_execution_skills_get(
    skill: MagicRow,
    skill_id: u32,
    can_use_skills: bool,
    type3: Option<MagicType3Row>,
    target_has_hot: bool,
)
    ensures
        ({
            let t = skill_type(skill);
            let held = !can_use_skills && t != 4 && skill_id <= 299999;
            let heal = type3 is Some && type3->0.direct_type == Some(1i32) && or_i32(
                type3->0.duration,
                0,
            ) != 0;
            let second = t == 3 && (skill.type2 is None || skill.type2 == Some(0i16)) && heal
                && target_has_hot;
            let r = execution_route(skill, skill_id, can_use_skills, type3, target_has_hot);
            &&& skills_blocked(can_use_skills, t, skill_id) <==> held
            &&& r.ends_stealth <==> !held && (t == 1 || t == 2 || t == 3 || t == 7)
            &&& match r.run {
                Some(n) => n == t && 1 <= t <= 9 && !held && !second,
                None => t == 0 || t >= 10 || held || second,
            }
        }),
{
}

/// Whose heal over time counts: the target's, or the caster's without one.
pub proof fn law_whose_heal_counts(target_id: i32, caster_sid: u16)
    ensures
        target_id < 0 ==> hot_sid(target_id, caster_sid) == caster_sid,
        0 <= target_id <= 65535 ==> hot_sid(target_id, caster_sid) == target_id,
{
}

/// What a cancel request takes away: one's own heals over time; one's own buff of the numbers 1
/// to 99 and from 201 on, unless it is a lockable scroll's, from 500001 on, whose slot holds a
/// debuff, which ends the request; the shape, where there is one and the skill gives one; and
/// the stealth of a skill that gives it.
pub proof fn law_what_cancelling_takes(skill_id: u32, facts: CancelFacts)
    ensures
        ({
            let own = match facts.buff_type {
                Some(b) => facts.aimed_at_self && (1 <= b <= 99 || b >= 201),
                None => false,
            };
            let locked = own && skill_id >= 500001 && facts.lockable_scroll
                && facts.slot_debuffed;
            let r = cancel_plan(skill_id, facts);
            &&& r.clear_hots <==> facts.aimed_at_self && facts.has_type3
            &&& r.remove_buff is Some <==> own && !locked
            &&& r.remove_buff is Some ==> r.remove_buff == facts.buff_type
            &&& r.cancel_transformation <==> !locked && facts.transformed && facts.has_type6
            &&& r.remove_stealth <==> !locked && facts.has_type9
            &&& r.shown <==> !locked
        }),
{
}

/// How buffs are prolonged: those of skills below 500000 with numbers 1 to 99 and from 201 on, by
/// their own duration, with the first item of kind 255 whose effect is a skill of moral 240. No
/// such item, no prolonging.
pub proof fn law_how_buffs_are_prolonged(
    r: Option<ExtendPlan>,
    skill_id: u32,
    type4: Option<MagicType4Row>,
    bag: Seq<BagItem>,
    i: int,
)
    requires
        is_extend_plan(r, skill_id, type4, bag),
        0 <= i < bag.len(),
        type4 is Some ==> or_i32(type4->0.duration, 0) >= 0,
    ensures
        ({
            let prolongs = |x: BagItem|
                x.item_id != 0 && x.kind == Some(255i32) && x.effect1 != 0 && x.effect_moral
                    == Some(240i16);
            let b = or_i32(type4->0.buff_type, 0);
            let can = skill_id <= 499999 && type4 is Some && (1 <= b <= 99 || b >= 201);
            &&& duration_item(bag[i]) == prolongs(bag[i])
            &&& !can ==> r is None
            &&& can && prolongs(bag[i]) ==> r is Some
            &&& r is Some ==> r->0.buff_type == b && r->0.seconds == or_i32(type4->0.duration, 0)
            &&& r is Some && prolongs(bag[i]) && (forall|j: int|
                0 <= j < i ==> !duration_item(#[trigger] bag[j])) ==> r->0.item_id
                == bag[i].item_id
        }),
{
}

/// Empty columns of a skill and of its rows count as 0 in every phase, but for the rate of
/// success.
pub proof fn law_empty_columns_are_0_in_phases(
    request: MagicInstance,
    skill: MagicRow,
    row2: MagicType2Row,
    row3: MagicType3Row,
    facts: EffectFacts,
    roll: i32,
    sid: u16,
    class: u16,
    v: Vitals,
    flag: bool,
    other: bool,
    held: u32,
)
    ensures
        ({
            let f = crate::tables::filled_skill(skill);
            &&& opens_transform_list(f, facts.zone_id) == opens_transform_list(
                skill,
                facts.zone_id,
            )
            &&& flight(
                f,
                flag,
                Some(crate::tables::filled_ranged(row2)),
                other,
                false,
                held,
                sid,
                class,
                v,
                request.target_id,
            ) == flight(
                skill,
                flag,
                Some(row2),
                other,
                false,
                held,
                sid,
                class,
                v,
                request.target_id,
            )
            &&& effect_plan(request, f, facts, roll, sid, class, v) == effect_plan(
                request,
                skill,
                facts,
                roll,
                sid,
                class,
                v,
            )
            &&& starts_cooldown(f, flag, other) == starts_cooldown(skill, flag, other)
            &&& execution_route(
                f,
                request.skill_id,
                flag,
                Some(crate::tables::filled_spell(row3)),
                other,
            ) == execution_route(skill, request.skill_id, flag, Some(row3), other)
        }),
{
    crate::mana::law_empty_columns_cost_nothing(sid, class, v, skill, request.target_id);
    crate::consume::law_empty_columns_are_0_for_items(
        skill,
        row2,
        skill_type(skill),
        facts.manes_unlocked,
        false,
        held,
    );
    crate::consume::law_empty_columns_are_0_for_items(
        skill,
        row2,
        skill_type(skill),
        other,
        false,
        held,
    );
}

/// Empty columns of a skill count as 0 for what a finished cast leaves behind.
pub proof fn law_empty_columns_are_0_for_finished_casts(
    r: CastReceipt,
    after: CastMemory,
    before: CastMemory,
    skill_id: u32,
    skill: MagicRow,
    instant_cast: bool,
    manes_unlocked: bool,
    now: u64,
)
    ensures
        cast_finished(
            r,
            after,
            before,
            skill_id,
            crate::tables::filled_skill(skill),
            instant_cast,
            manes_unlocked,
            now,
        ) == cast_finished(r, after, before, skill_id, skill, instant_cast, manes_unlocked, now),
{
    crate::consume::law_empty_columns_are_0_for_items(
        skill,
        MagicType2Row {
            i_num: 0,
            hit_type: None,
            hit_rate: None,
            add_damage: None,
            need_arrow: None,
            add_dmg_perc_to_user: None,
            add_dmg_perc_to_npc: None,
        },
        0,
        false,
        false,
        0,
    );
}

} // verus!
