//! What a skill costs: mana, stamina and health.

use crate::arith::or_i16;
use crate::skills::{is_kurian_class, kurian_class};
use crate::tables::MagicRow;
use vstd::prelude::*;

verus! {

/// From this health cost on a skill is a sacrifice.
pub const SACRIFICE_COST: i16 = 10000;

/// Health, mana and stamina of a character.
#[derive(Clone, Copy, Debug, PartialEq, Eq, Structural)]
pub struct Vitals {
    pub hp: i16,
    pub max_hp: i16,
    pub mp: i16,
    pub max_mp: i16,
    pub sp: i16,
    pub max_sp: i16,
}

/// The values that a skill's cost changes, and whether the skill may go on.
///
/// A sacrifice aimed at the caster is refused after mana and stamina have been paid.
#[derive(Clone, Copy, Debug, PartialEq, Eq, Structural)]
pub struct Payment {
    pub accepted: bool,
    pub mp: Option<i16>,
    pub sp: Option<i16>,
    pub hp: Option<i16>,
}

/// Skills that are paid with health: they have a health cost, cost no mana and are no
/// sacrifice.
pub open spec fn costs_health(hp_cost: i16, mana_cost: i16) -> bool {
    0 < hp_cost < SACRIFICE_COST && mana_cost == 0
}

/// Whether a skill is paid with health.
pub fn is_hp_cost_skill(hp_cost: i16, mana_cost: i16) -> (r: bool)
    ensures
        r == costs_health(hp_cost, mana_cost),
{
    hp_cost > 0 && mana_cost == 0 && hp_cost < SACRIFICE_COST
}

/// What is left of `hp` after `cost`, never below 0.
pub open spec fn hp_left(hp: i16, cost: i16) -> i16 {
    if hp - cost > 0 {
        (hp - cost) as i16
    } else {
        0
    }
}

/// Take a health cost off, down to 0.
pub fn deduct_hp(hp: i16, cost: i16) -> (r: i16)
    requires
        cost >= 0,
    ensures
        r == hp_left(hp, cost),
{
    if hp > cost {
        hp - cost
    } else {
        0
    }
}

/// Whether the caster can pay.
pub open spec fn affordable(class: u16, v: Vitals, skill: MagicRow) -> bool {
    let mana_cost = or_i16(skill.msp, 0);
    let sp_cost = or_i16(skill.s_sp, 0);
    let hp_cost = or_i16(skill.hp, 0);
    &&& mana_cost > 0 ==> v.mp >= mana_cost
    &&& sp_cost > 0 && kurian_class(class) ==> v.sp >= sp_cost
    &&& costs_health(hp_cost, mana_cost) ==> hp_cost <= v.hp
}

/// What is paid for a skill. Nothing is paid where the caster cannot afford all of it; only
/// Kurians pay stamina; a sacrifice takes 10000 health whatever its row says.
pub open spec fn payment(
    sid: u16,
    class: u16,
    v: Vitals,
    skill: MagicRow,
    target_id: i32,
) -> Payment {
    let mana_cost = or_i16(skill.msp, 0);
    let sp_cost = or_i16(skill.s_sp, 0);
    let hp_cost = or_i16(skill.hp, 0);
    if !affordable(class, v, skill) {
        Payment { accepted: false, mp: None, sp: None, hp: None }
    } else {
        let sacrifice = hp_cost >= SACRIFICE_COST;
        let at_self = target_id == sid;
        Payment {
            accepted: !(sacrifice && at_self),
            mp: if mana_cost > 0 {
                Some((v.mp - mana_cost) as i16)
            } else {
                None
            },
            sp: if sp_cost > 0 && kurian_class(class) {
                Some((v.sp - sp_cost) as i16)
            } else {
                None
            },
            hp: if costs_health(hp_cost, mana_cost) {
                Some((v.hp - hp_cost) as i16)
            } else if sacrifice && !at_self {
                Some(hp_left(v.hp, SACRIFICE_COST))
            } else {
                None
            },
        }
    }
}

/// Check a skill's cost and work out what it leaves of the caster's health, mana and stamina.
pub fn check_and_deduct_mana(
    sid: u16,
    class: u16,
    v: &Vitals,
    skill: &MagicRow,
    target_id: i32,
) -> (p: Payment)
    ensures
        p == payment(sid, class, *v, *skill, target_id),
{
    let mana_cost: i16 = skill.msp.unwrap_or(0);
    let sp_cost: i16 = skill.s_sp.unwrap_or(0);
    let hp_cost: i16 = skill.hp.unwrap_or(0);
    let kurian: bool = is_kurian_class(class);
    let refused = Payment { accepted: false, mp: None, sp: None, hp: None };
    if mana_cost > 0 && v.mp < mana_cost {
        return refused;
    }
    if sp_cost > 0 && kurian && v.sp < sp_cost {
        return refused;
    }
    if is_hp_cost_skill(hp_cost, mana_cost) && hp_cost > v.hp {
        return refused;
    }
    let mut p = Payment { accepted: true, mp: None, sp: None, hp: None };
    if mana_cost > 0 {
        p.mp = Some(v.mp - mana_cost);
    }
    if sp_cost > 0 && kurian {
        p.sp = Some(v.sp - sp_cost);
    }
    if is_hp_cost_skill(hp_cost, mana_cost) {
        p.hp = Some(v.hp - hp_cost);
    }
    if hp_cost >= SACRIFICE_COST {
        if target_id == sid as i32 {
            p.accepted = false;
            return p;
        }
        p.hp = Some(deduct_hp(v.hp, SACRIFICE_COST));
    }
    p
}

/// No skill leaves the caster with less than nothing, and none costs more than its row says.
pub proof fn law_costs_stay_in_bounds(
    sid: u16,
    class: u16,
    v: Vitals,
    skill: MagicRow,
    target_id: i32,
)
    requires
        v.hp >= 0,
        v.mp >= 0,
        v.sp >= 0,
    ensures
        ({
            let p = payment(sid, class, v, skill, target_id);
            &&& p.mp is Some ==> 0 <= p.mp->0 < v.mp && v.mp - p.mp->0 == or_i16(skill.msp, 0)
            &&& p.sp is Some ==> 0 <= p.sp->0 < v.sp && v.sp - p.sp->0 == or_i16(skill.s_sp, 0)
            &&& p.hp is Some ==> 0 <= p.hp->0 <= v.hp && v.hp - p.hp->0 <= or_i16(skill.hp, 0)
        }),
{
}

/// A caster who can afford a skill is never turned away, unless it is a sacrifice of oneself;
/// one who cannot pays nothing.
pub proof fn law_affordable_skills_are_paid(
    sid: u16,
    class: u16,
    v: Vitals,
    skill: MagicRow,
    target_id: i32,
)
    ensures
        ({
            let p = payment(sid, class, v, skill, target_id);
            &&& p.accepted == (affordable(class, v, skill) && !(or_i16(skill.hp, 0)
                >= SACRIFICE_COST && target_id == sid))
            &&& !affordable(class, v, skill) ==> p.mp is None && p.sp is None && p.hp is None
        }),
{
}

/// Who can pay: mana is asked of everyone, stamina of Kurians alone, and health where a skill
/// costs some, less than 10000, and no mana. A sacrifice, of 10000 health or more, is asked of
/// nobody beforehand.
pub proof fn law_who_can_pay(class: u16, v: Vitals, skill: MagicRow)
    ensures
        ({
            let kurian = 13 <= class % 100 <= 15;
            let by_health = or_i16(skill.msp, 0) == 0 && 1 <= or_i16(skill.hp, 0) <= 9999;
            let short_of_mana = or_i16(skill.msp, 0) > 0 && v.mp < or_i16(skill.msp, 0);
            let short_of_stamina = kurian && or_i16(skill.s_sp, 0) > 0 && v.sp < or_i16(
                skill.s_sp,
                0,
            );
            let short_of_health = by_health && v.hp < or_i16(skill.hp, 0);
            affordable(class, v, skill) <==> !short_of_mana && !short_of_stamina
                && !short_of_health
        }),
{
}

/// What is paid where the caster can pay: mana and stamina as the row asks for them, stamina by
/// Kurians alone; the row's health by skills that cost no mana, 10000 health by a sacrifice at
/// someone else, down to nothing; and nothing where the row asks for nothing.
pub proof fn law_what_is_paid(
    sid: u16,
    class: u16,
    v: Vitals,
    skill: MagicRow,
    target_id: i32,
)
    requires
        affordable(class, v, skill),
    ensures
        ({
            let p = payment(sid, class, v, skill, target_id);
            let kurian = 13 <= class % 100 <= 15;
            let health = or_i16(skill.hp, 0);
            let by_health = or_i16(skill.msp, 0) == 0 && 1 <= health <= 9999;
            &&& p.mp is Some <==> or_i16(skill.msp, 0) > 0
            &&& p.mp is Some ==> p.mp->0 + or_i16(skill.msp, 0) == v.mp
            &&& p.sp is Some <==> kurian && or_i16(skill.s_sp, 0) > 0
            &&& p.sp is Some ==> p.sp->0 + or_i16(skill.s_sp, 0) == v.sp
            &&& p.hp is Some <==> by_health || (health >= 10000 && target_id != sid)
            &&& by_health ==> p.hp->0 + health == v.hp
            &&& health >= 10000 && target_id != sid && v.hp >= 10000 ==> p.hp->0 + 10000 == v.hp
            &&& health >= 10000 && target_id != sid && v.hp <= 10000 ==> p.hp->0 == 0
            &&& !p.accepted <==> health >= 10000 && target_id == sid
        }),
{
}

/// Empty columns of a skill cost nothing.
pub proof fn law_empty_columns_cost_nothing(
    sid: u16,
    class: u16,
    v: Vitals,
    skill: MagicRow,
    target_id: i32,
)
    ensures
        ({
            let f = crate::tables::filled_skill(skill);
            &&& affordable(class, v, f) == affordable(class, v, skill)
            &&& payment(sid, class, v, f, target_id) == payment(sid, class, v, skill, target_id)
        }),
{
}

} // verus!
