//! Items that skills use up.

use crate::arith::or_i32;
use crate::tables::{MagicRow, MagicType2Row};
use crate::constants::ITEM_ARROW;
use vstd::prelude::*;

verus! {

/// Items that a skill needs but does not use up: return scrolls, special scrolls and class
/// stones.
pub const NO_CONSUME_ITEMS: [u32; 9] = [
    370001000, 370002000, 370003000,
    379069000, 379070000,
    379063000, 379064000, 379065000, 379066000,
];

/// The class stones are numbered from here on, 1000 apart.
pub const CLASS_STONE_BASE_ID: u32 = 379060000;

/// The item that a skill uses: a class stone where the action before it is 1 to 4, the special
/// action's own item, and the row's item otherwise. 0 stands for none.
pub open spec fn consumed_item(skill: MagicRow) -> u32 {
    let before_action = or_i32(skill.before_action, 0);
    if 1 <= before_action <= 4 {
        (CLASS_STONE_BASE_ID + before_action * 1000) as u32
    } else if before_action == 381001000 {
        381001000
    } else {
        or_i32(skill.use_item, 0) as u32
    }
}

/// The item that a skill uses, or 0.
pub fn resolve_consume_item(skill: &MagicRow) -> (r: u32)
    ensures
        r == consumed_item(*skill),
{
    let before_action: i32 = skill.before_action.unwrap_or(0);
    let use_item: u32 = skill.use_item.unwrap_or(0) as u32;
    if before_action >= 1 && before_action <= 4 {
        CLASS_STONE_BASE_ID + (before_action as u32) * 1000
    } else if before_action == 379090000 || before_action == 379093000 {
        use_item
    } else if before_action == 381001000 {
        before_action as u32
    } else {
        use_item
    }
}

/// Whether an item stays after its use.
pub fn is_no_consume_item(item: u32) -> (r: bool)
    ensures
        r == NO_CONSUME_ITEMS@.contains(item),
{
    let mut i: usize = 0;
    while i < 9
        invariant
            0 <= i <= 9,
            forall|j: int| 0 <= j < i ==> NO_CONSUME_ITEMS@[j] != item,
        decreases 9 - i,
    {
        if NO_CONSUME_ITEMS[i] == item {
            assert(NO_CONSUME_ITEMS@[i as int] == item);
            return true;
        }
        i = i + 1;
    }
    false
}

/// The item that disappears with a cast of the skill, if one does.
pub open spec fn item_to_take(skill: MagicRow) -> Option<u32> {
    let item = consumed_item(skill);
    if item == 0 || NO_CONSUME_ITEMS@.contains(item) {
        None
    } else {
        Some(item)
    }
}

/// The item to take from the caster after a cast, if any.
pub fn consume_item(skill: &MagicRow) -> (r: Option<u32>)
    ensures
        r == item_to_take(*skill),
{
    let item: u32 = resolve_consume_item(skill);
    if item == 0 || is_no_consume_item(item) {
        None
    } else {
        Some(item)
    }
}

/// The item that the caster must hold for the effect to come about, if any. Archery and
/// transformations look for theirs elsewhere, and arrows have already been spent.
pub open spec fn item_needed(skill: MagicRow, skill_type: u8, manes_unlocked: bool) -> Option<u32> {
    let use_item = or_i32(skill.use_item, 0) as u32;
    if skill_type == 2 || skill_type == 6 || manes_unlocked || use_item == 0 || use_item
        == ITEM_ARROW {
        None
    } else {
        item_to_take(skill)
    }
}

/// The item that the caster must hold for the effect to come about, if any.
pub fn required_item(skill: &MagicRow, skill_type: u8, manes_unlocked: bool) -> (r: Option<u32>)
    ensures
        r == item_needed(*skill, skill_type, manes_unlocked),
{
    let use_item: u32 = skill.use_item.unwrap_or(0) as u32;
    if skill_type != 2 && skill_type != 6 && !manes_unlocked && use_item != 0 && use_item
        != ITEM_ARROW {
        consume_item(skill)
    } else {
        None
    }
}

/// How many arrows or knives one shot takes; a row that names none takes one.
pub open spec fn arrows_per_shot(need_arrow: i32) -> u16 {
    if need_arrow as u16 == 0 {
        1
    } else {
        need_arrow as u16
    }
}

/// How many arrows or knives one shot takes.
pub fn arrow_count(need_arrow: i32) -> (r: u16)
    ensures
        r == arrows_per_shot(need_arrow),
{
    let count: u16 = need_arrow as u16;
    if count == 0 {
        1
    } else {
        count
    }
}

/// Whether an infinity quiver stands in for the ammunition; it replaces plain arrows alone.
pub fn infinity_bypass(use_item: u32, has_infinity_arc: bool) -> (r: bool)
    ensures
        r == (use_item == ITEM_ARROW && has_infinity_arc),
{
    use_item == ITEM_ARROW && has_infinity_arc
}

/// What a shot does to the ammunition.
#[derive(Clone, Copy, Debug, PartialEq, Eq, Structural)]
pub enum Ammunition {
    Free,
    Missing,
    Take { item: u32, count: u16 },
}

/// What a shot does to the ammunition. `held` is how much of the needed item the caster has.
pub open spec fn ammunition(
    skill: MagicRow,
    type2: Option<MagicType2Row>,
    manes_unlocked: bool,
    has_infinity_arc: bool,
    held: u32,
) -> Ammunition {
    let use_item = or_i32(skill.use_item, 0) as u32;
    if use_item == 0 || manes_unlocked || type2 is None || (use_item == ITEM_ARROW
        && has_infinity_arc) {
        Ammunition::Free
    } else {
        let count = arrows_per_shot(or_i32(type2->0.need_arrow, 0));
        if held < count {
            Ammunition::Missing
        } else {
            Ammunition::Take { item: use_item, count }
        }
    }
}

/// Work out what a shot does to the ammunition.
pub fn plan_ammunition(
    skill: &MagicRow,
    type2: &Option<MagicType2Row>,
    manes_unlocked: bool,
    has_infinity_arc: bool,
    held: u32,
) -> (r: Ammunition)
    ensures
        r == ammunition(*skill, *type2, manes_unlocked, has_infinity_arc, held),
{
    let use_item: u32 = skill.use_item.unwrap_or(0) as u32;
    if use_item == 0 || manes_unlocked {
        return Ammunition::Free;
    }
    match type2 {
        Some(row) => {
            if infinity_bypass(use_item, has_infinity_arc) {
                return Ammunition::Free;
            }
            let count: u16 = arrow_count(row.need_arrow.unwrap_or(0));
            if held < count as u32 {
                Ammunition::Missing
            } else {
                Ammunition::Take { item: use_item, count }
            }
        },
        None => Ammunition::Free,
    }
}

/// A shot never takes more than the caster holds, and takes at least one.
pub proof fn law_shots_take_what_is_there(
    skill: MagicRow,
    type2: Option<MagicType2Row>,
    manes_unlocked: bool,
    has_infinity_arc: bool,
    held: u32,
)
    ensures
        match ammunition(skill, type2, manes_unlocked, has_infinity_arc, held) {
            Ammunition::Take { item, count } => 1 <= count <= held && item != 0,
            _ => true,
        },
{
}

/// What a cast takes is what the check before it looked for, wherever that check was made.
pub proof fn law_checked_item_is_the_taken_item(skill: MagicRow, skill_type: u8)
    ensures
        match item_needed(skill, skill_type, false) {
            Some(item) => item_to_take(skill) == Some(item) && item != 0,
            None => true,
        },
{
}

/// Which item a skill uses: actions 1 to 4 the class stones, 1000 apart, the special action the
/// item of its own number, and every other the row's item, or none.
pub proof fn law_skills_use_their_item(skill: MagicRow)
    ensures
        ({
            let action = or_i32(skill.before_action, 0);
            let own = or_i32(skill.use_item, 0);
            &&& 1 <= action <= 4 ==> consumed_item(skill) == 379060000 + 1000 * action
            &&& action == 381001000 ==> consumed_item(skill) == 381001000
            &&& !(1 <= action <= 4) && action != 381001000 && own >= 0 ==> consumed_item(skill)
                == own
        }),
{
}

/// What a cast takes: the item that it uses, but for return scrolls, special scrolls and class
/// stones, which stay.
pub proof fn law_scrolls_and_stones_stay(skill: MagicRow)
    ensures
        ({
            let item = consumed_item(skill);
            let stays = 370001000 <= item <= 370003000 && item % 1000 == 0 || item == 379069000
                || item == 379070000 || 379063000 <= item <= 379066000 && item % 1000 == 0;
            match item_to_take(skill) {
                Some(taken) => taken == item && item != 0 && !stays,
                None => item == 0 || stays,
            }
        }),
{
    let s = NO_CONSUME_ITEMS@;
    assert(s[0] == 370001000 && s[1] == 370002000 && s[2] == 370003000);
    assert(s[3] == 379069000 && s[4] == 379070000);
    assert(s[5] == 379063000 && s[6] == 379064000 && s[7] == 379065000 && s[8] == 379066000);
}

/// What the effect asks for: the item that the cast takes, unless the skill is of archery or a
/// transformation, the survival event has unlocked it, or the row's item is none or arrows.
pub proof fn law_effects_ask_for_their_item(skill: MagicRow, skill_type: u8, manes_unlocked: bool)
    requires
        or_i32(skill.use_item, 0) >= 0,
    ensures
        ({
            let own = or_i32(skill.use_item, 0);
            let free = skill_type == 2 || skill_type == 6 || manes_unlocked || own == 0 || own
                == 391010000;
            &&& free ==> item_needed(skill, skill_type, manes_unlocked) is None
            &&& !free ==> item_needed(skill, skill_type, manes_unlocked) == item_to_take(skill)
        }),
{
}

/// What a shot takes: as many of the row's item as the row says, at least one. It is free
/// without an item, in the survival event, without a row of its own, and of plain arrows with
/// the infinity quiver; it fails exactly where the caster holds too few.
pub proof fn law_shots_take_their_arrows(
    skill: MagicRow,
    type2: Option<MagicType2Row>,
    manes_unlocked: bool,
    has_infinity_arc: bool,
    held: u32,
)
    requires
        or_i32(skill.use_item, 0) >= 0,
        type2 is Some ==> 0 <= or_i32(type2->0.need_arrow, 0) <= 65535,
    ensures
        ({
            let own = or_i32(skill.use_item, 0);
            let free = own == 0 || manes_unlocked || type2 is None || (own == 391010000
                && has_infinity_arc);
            let asked = or_i32(type2->0.need_arrow, 0);
            let need = if asked == 0 {
                1
            } else {
                asked as int
            };
            match ammunition(skill, type2, manes_unlocked, has_infinity_arc, held) {
                Ammunition::Free => free,
                Ammunition::Missing => !free && held < need,
                Ammunition::Take { item, count } => !free && held >= need && item == own && count
                    == need,
            }
        }),
{
}

/// Empty columns of a skill and of its row count as 0 for items and ammunition.
pub proof fn law_empty_columns_are_0_for_items(
    skill: MagicRow,
    row: MagicType2Row,
    t: u8,
    manes_unlocked: bool,
    has_infinity_arc: bool,
    held: u32,
)
    ensures
        ({
            let f = crate::tables::filled_skill(skill);
            &&& consumed_item(f) == consumed_item(skill)
            &&& item_to_take(f) == item_to_take(skill)
            &&& item_needed(f, t, manes_unlocked) == item_needed(skill, t, manes_unlocked)
            &&& ammunition(
                f,
                Some(crate::tables::filled_ranged(row)),
                manes_unlocked,
                has_infinity_arc,
                held,
            ) == ammunition(skill, Some(row), manes_unlocked, has_infinity_arc, held)
        }),
{
}

} // verus!
