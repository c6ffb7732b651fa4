//! How far a skill reaches.

use crate::arith::{or_i16, or_i32};
use crate::constants::BUFF_TYPE_KAUL_TRANSFORMATION;
use crate::skills::{drain_skill, is_drain_skill, is_staff_skill, staff_skill};
use crate::tables::MagicRow;
use vstd::prelude::*;

verus! {

/// The item whose skills reach farther than any other.
pub const FAR_ITEM: i32 = 391010000;

/// How far a skill reaches by its kind. Melee skills that need no time reach a fixed distance,
/// farther on the move.
pub open spec fn base_reach(skill: MagicRow, moving: bool) -> int {
    let id = skill.magic_num as u32;
    let range = or_i16(skill.range, 0);
    let melee = or_i16(skill.type1, 0) == 1 || or_i16(skill.type2, 0) == 1;
    if melee && or_i16(skill.cast_time, 0) == 0 && !staff_skill(id) {
        if moving {
            18
        } else {
            12
        }
    } else if drain_skill(id) {
        range + 5
    } else if staff_skill(id) {
        if moving {
            range + 17
        } else {
            range + 10
        }
    } else {
        range + 9
    }
}

/// How far a skill reaches. Magic that takes time to cast reaches twice its range, the skills
/// of one item farther still.
pub open spec fn skill_reach(skill: MagicRow, moving: bool) -> int {
    let range = or_i16(skill.range, 0);
    let t_1 = or_i32(skill.t_1, 0);
    if or_i32(skill.use_item, 0) == FAR_ITEM {
        55
    } else if or_i16(skill.type1, 0) == 8 && t_1 == BUFF_TYPE_KAUL_TRANSFORMATION && range == 1 {
        6
    } else if !staff_skill(skill.magic_num as u32) && t_1 != -1 && t_1 != 0 && or_i16(
        skill.cast_time,
        0,
    ) > 0 {
        range * 2
    } else {
        base_reach(skill, moving)
    }
}

/// Work out how far a skill reaches.
pub fn effective_range(skill: &MagicRow, moving: bool) -> (r: i32)
    ensures
        r == skill_reach(*skill, moving),
{
    let range: i32 = skill.range.unwrap_or(0) as i32;
    let id: u32 = skill.magic_num as u32;
    let type1: i16 = skill.type1.unwrap_or(0);
    let type2: i16 = skill.type2.unwrap_or(0);
    let cast_time: i16 = skill.cast_time.unwrap_or(0);
    let t_1: i32 = skill.t_1.unwrap_or(0);
    if skill.use_item.unwrap_or(0) == FAR_ITEM {
        return 55;
    }
    if type1 == 8 && t_1 == BUFF_TYPE_KAUL_TRANSFORMATION && range == 1 {
        return 6;
    }
    let staff: bool = is_staff_skill(id);
    if !staff && t_1 != -1 && t_1 != 0 && cast_time > 0 {
        return range * 2;
    }
    if (type1 == 1 || type2 == 1) && cast_time == 0 && !staff {
        if moving {
            18
        } else {
            12
        }
    } else if is_drain_skill(id) {
        range + 5
    } else if staff && moving {
        range + 17
    } else if staff {
        range + 10
    } else {
        range + 9
    }
}

/// Whether a result is how far a skill reaches between two zones; `None` where it does not.
pub open spec fn is_reach(
    r: Option<i32>,
    caster_zone: Option<u16>,
    target_zone: Option<u16>,
    skill: MagicRow,
    moving: bool,
) -> bool {
    match r {
        Some(d) => caster_zone is Some && caster_zone == target_zone && d == skill_reach(
            skill,
            moving,
        ),
        None => caster_zone is None || target_zone is None || caster_zone != target_zone,
    }
}

/// How far a skill reaches from its caster to a target, by the zones that both stand in.
/// `None` where one of them stands nowhere or elsewhere, which is out of range. The square of
/// their distance must not exceed the square of the result.
pub fn check_skill_range(
    caster_zone: Option<u16>,
    target_zone: Option<u16>,
    skill: &MagicRow,
    moving: bool,
) -> (r: Option<i32>)
    ensures
        is_reach(r, caster_zone, target_zone, *skill, moving),
{
    match (caster_zone, target_zone) {
        (Some(a), Some(b)) => if a == b {
            Some(effective_range(skill, moving))
        } else {
            None
        },
        _ => None,
    }
}

/// Moving never shortens a skill's reach.
pub proof fn law_moving_helps_reach(skill: MagicRow)
    ensures
        skill_reach(skill, false) <= skill_reach(skill, true),
{
}

/// How far skills reach: those of the far item 55, Kaul's kick of range 1 reaches 6, magic that
/// takes time twice its range. Melee without casting time reaches 12, 18 on the move; drains 5
/// beyond their range, staff attacks 10, 17 on the move, and all else 9.
pub proof fn law_skills_reach(skill: MagicRow, moving: bool)
    ensures
        ({
            let id = skill.magic_num as u32;
            let range = or_i16(skill.range, 0);
            let t_1 = or_i32(skill.t_1, 0);
            let far = skill.use_item == Some(391010000i32);
            let kick = skill.type1 == Some(8i16) && t_1 == 35 && range == 1;
            let slow = !staff_skill(id) && t_1 != -1 && t_1 != 0 && or_i16(skill.cast_time, 0) > 0;
            let melee = (skill.type1 == Some(1i16) || skill.type2 == Some(1i16)) && or_i16(
                skill.cast_time,
                0,
            ) == 0 && !staff_skill(id);
            let plain = !far && !kick && !slow;
            let reach = skill_reach(skill, moving);
            &&& far ==> reach == 55
            &&& !far && kick ==> reach == 6
            &&& !far && !kick && slow ==> reach == range + range
            &&& plain && melee && moving ==> reach == 18
            &&& plain && melee && !moving ==> reach == 12
            &&& plain && !melee && drain_skill(id) ==> reach - range == 5
            &&& plain && staff_skill(id) && moving ==> reach - range == 17
            &&& plain && staff_skill(id) && !moving ==> reach - range == 10
            &&& plain && !melee && !drain_skill(id) && !staff_skill(id) ==> reach - range == 9
        }),
{
    crate::skills::law_skill_kinds_are_disjoint(skill.magic_num as u32);
}

/// Skills reach within one zone alone, and there as far as they reach.
pub proof fn law_skills_reach_within_a_zone(
    r: Option<i32>,
    caster_zone: Option<u16>,
    target_zone: Option<u16>,
    skill: MagicRow,
    moving: bool,
)
    requires
        is_reach(r, caster_zone, target_zone, skill, moving),
    ensures
        r is Some <==> match (caster_zone, target_zone) {
            (Some(a), Some(b)) => a == b,
            _ => false,
        },
        r is Some ==> r->0 == skill_reach(skill, moving),
{
}

/// Empty columns of a skill count as 0 for its reach.
pub proof fn law_empty_columns_are_0_for_reach(skill: MagicRow, moving: bool)
    ensures
        ({
            let f = crate::tables::filled_skill(skill);
            &&& base_reach(f, moving) == base_reach(skill, moving)
            &&& skill_reach(f, moving) == skill_reach(skill, moving)
        }),
{
}

} // verus!
