//! Which skill, class and zone ids the rules single out.

use crate::constants::{
    ZONE_CLAN_WAR_ARDREAM, ZONE_CLAN_WAR_RONARK, ZONE_DESPERATION_ABYSS, ZONE_ELMORAD,
    ZONE_ELMORAD2, ZONE_ELMORAD3, ZONE_ELMORAD_ESLANT, ZONE_ELMORAD_ESLANT2, ZONE_ELMORAD_ESLANT3,
    ZONE_FORGOTTEN_TEMPLE, ZONE_HELL_ABYSS, ZONE_KARUS, ZONE_KARUS2, ZONE_KARUS3,
    ZONE_KARUS_ESLANT, ZONE_KARUS_ESLANT2, ZONE_KARUS_ESLANT3, ZONE_MORADON, ZONE_MORADON2,
    ZONE_MORADON3, ZONE_MORADON4, ZONE_MORADON5,
};
use vstd::prelude::*;

verus! {

/// Long-range staff attacks of mages.
pub open spec fn staff_skill(id: u32) -> bool {
    ||| id == 109742 || id == 110742 || id == 209742 || id == 210742 || id == 110772 || id == 210772
    ||| id == 109542 || id == 110542 || id == 209542 || id == 210542 || id == 110572 || id == 210572
    ||| id == 109642 || id == 110642 || id == 209642 || id == 210642 || id == 110672 || id == 210672
    ||| id == 109556 || id == 209556 || id == 109543 || id == 209543
    ||| id == 109656 || id == 209656 || id == 109643 || id == 209643
    ||| id == 109756 || id == 209756 || id == 109743 || id == 209743
    ||| id == 110556 || id == 210556 || id == 110543 || id == 210543
    ||| id == 110656 || id == 210656 || id == 110643 || id == 210643
    ||| id == 110756 || id == 210756 || id == 110743 || id == 210743
}

/// Whether a skill is a staff attack.
pub fn is_staff_skill(skill_id: u32) -> (r: bool)
    ensures
        r == staff_skill(skill_id),
{
    matches!(
        skill_id,
        109742 | 110742 | 209742 | 210742 | 110772 | 210772 |
        109542 | 110542 | 209542 | 210542 | 110572 | 210572 |
        109642 | 110642 | 209642 | 210642 | 110672 | 210672 |
        109556 | 209556 | 109543 | 209543 |
        109656 | 209656 | 109643 | 209643 |
        109756 | 209756 | 109743 | 209743 |
        110556 | 210556 | 110543 | 210543 |
        110656 | 210656 | 110643 | 210643 |
        110756 | 210756 | 110743 | 210743
    )
}

/// Skills that drain health or mana.
pub open spec fn drain_skill(id: u32) -> bool {
    ||| id == 107650 || id == 108650 || id == 207650 || id == 208650
    ||| id == 107610 || id == 108610 || id == 207610 || id == 208610
}

/// Whether a skill drains health or mana.
pub fn is_drain_skill(skill_id: u32) -> (r: bool)
    ensures
        r == drain_skill(skill_id),
{
    matches!(
        skill_id,
        107650 | 108650 | 207650 | 208650 | 107610 | 108610 | 207610 | 208610
    )
}

/// Ground-target area attacks of warriors.
pub open spec fn stomp_skill(id: u32) -> bool {
    ||| id == 105725 || id == 105735 || id == 106725 || id == 106735
    ||| id == 205725 || id == 205735 || id == 206725 || id == 206735
    ||| id == 105760 || id == 106760 || id == 205760 || id == 206760
    ||| id == 106775 || id == 206775
}

/// Whether a skill is a warrior's area attack.
pub fn is_stomp_skill(skill_id: u32) -> (r: bool)
    ensures
        r == stomp_skill(skill_id),
{
    matches!(
        skill_id,
        105725 | 105735 | 106725 | 106735 | 205725 | 205735 | 206725 | 206735
        | 105760 | 106760 | 205760 | 206760 | 106775 | 206775
    )
}

/// Charge skills, which no resistance stops.
pub open spec fn rush_skill(id: u32) -> bool {
    id == 114509 || id == 115509 || id == 214509 || id == 215509
}

/// Whether a skill is a charge.
pub fn is_rush_skill(skill_id: u32) -> (r: bool)
    ensures
        r == rush_skill(skill_id),
{
    matches!(skill_id, 114509 | 115509 | 214509 | 215509)
}

/// Counter-attacks of mage armors.
pub open spec fn mage_armor_skill(id: u32) -> bool {
    ||| id == 190573 || id == 290573
    ||| id == 190673 || id == 290673
    ||| id == 190773 || id == 290773
}

/// Whether a skill is the counter-attack of a mage armor.
pub fn is_mage_armor_skill(skill_id: u32) -> (r: bool)
    ensures
        r == mage_armor_skill(skill_id),
{
    matches!(
        skill_id,
        190573 | 290573 | 190673 | 290673 | 190773 | 290773
    )
}

/// Skills against which armor scrolls do not count.
pub const ARMOR_SCROLL_DISABLE_SKILLS: [u32; 14] = [
    107640, 108640, 207640, 208640, 107620, 108620, 207620, 208620, 107600, 108600, 207600, 208600,
    108670, 208670,
];

/// Whether armor scrolls do not count against a skill.
pub fn is_armor_scroll_disable_skill(skill_id: u32) -> (r: bool)
    ensures
        r == ARMOR_SCROLL_DISABLE_SKILLS@.contains(skill_id),
{
    let mut i: usize = 0;
    while i < 14
        invariant
            0 <= i <= 14,
            forall|j: int| 0 <= j < i ==> ARMOR_SCROLL_DISABLE_SKILLS@[j] != skill_id,
        decreases 14 - i,
    {
        if ARMOR_SCROLL_DISABLE_SKILLS[i] == skill_id {
            assert(ARMOR_SCROLL_DISABLE_SKILLS@[i as int] == skill_id);
            return true;
        }
        i = i + 1;
    }
    false
}

/// Skills that need no entity as target: theirs must be `-1`.
pub open spec fn untargeted_skill(id: u32) -> bool {
    id == 109035 || id == 110035 || id == 209035 || id == 210035
}

/// Whether a skill must be sent with target `-1`.
pub fn is_untargeted_skill(skill_id: u32) -> (r: bool)
    ensures
        r == untargeted_skill(skill_id),
{
    matches!(skill_id, 109035 | 110035 | 209035 | 210035)
}

/// Skills that must be aimed at the caster.
pub open spec fn self_target_skill(id: u32) -> bool {
    id == 109015 || id == 110015 || id == 209015 || id == 210015
}

/// Whether a skill must be aimed at the caster.
pub fn is_self_target_skill(skill_id: u32) -> (r: bool)
    ensures
        r == self_target_skill(skill_id),
{
    matches!(skill_id, 109015 | 110015 | 209015 | 210015)
}

/// Skills that are not resisted by cold or lightning resistance.
pub open spec fn resistance_bypass_skill(id: u32) -> bool {
    ||| rush_skill(id)
    ||| id == 492027
    ||| id == 190773 || id == 290773
    ||| id == 190673 || id == 290673
}

/// Whether a slowing or stunning skill skips the resistance check.
pub fn is_resistance_bypass_skill(skill_id: u32) -> (r: bool)
    ensures
        r == resistance_bypass_skill(skill_id),
{
    is_rush_skill(skill_id) || matches!(skill_id, 492027 | 190773 | 290773 | 190673 | 290673)
}

/// Skills that do nothing to the NPCs of the Under Castle.
pub open spec fn under_castle_skill(id: u32) -> bool {
    ||| drain_skill(id)
    ||| id == 109554 || id == 110554 || id == 209554 || id == 210554
    ||| id == 109754 || id == 110754 || id == 209754 || id == 210754
    ||| id == 111745 || id == 112745 || id == 211745 || id == 212745
    ||| id == 112771 || id == 212771
}

/// Whether a skill does nothing to the NPCs of the Under Castle.
pub fn is_under_castle_blocked_skill(skill_id: u32) -> (r: bool)
    ensures
        r == under_castle_skill(skill_id),
{
    matches!(
        skill_id,
        107650 | 108650 | 207650 | 208650
        | 107610 | 108610 | 207610 | 208610
        | 109554 | 110554 | 209554 | 210554
        | 109754 | 110754 | 209754 | 210754
        | 111745 | 112745 | 211745 | 212745
        | 112771 | 212771
    )
}

/// What a class id says besides the nation: the job and its tier.
pub open spec fn class_type(class: u16) -> int {
    (class % 100) as int
}

/// Mages of any tier.
pub open spec fn mage_class(class: u16) -> bool {
    class % 100 == 3 || class % 100 == 9 || class % 100 == 10
}

/// Whether a class is a mage of any tier.
pub fn is_mage_class(class: u16) -> (r: bool)
    ensures
        r == mage_class(class),
{
    matches!(class % 100, 3 | 9 | 10)
}

/// Warriors of any tier.
pub open spec fn warrior_class(class: u16) -> bool {
    class % 100 == 1 || class % 100 == 5 || class % 100 == 6
}

/// Whether a class is a warrior of any tier.
pub fn is_warrior_class(class: u16) -> (r: bool)
    ensures
        r == warrior_class(class),
{
    matches!(class % 100, 1 | 5 | 6)
}

/// Rogues of any tier.
pub open spec fn rogue_class(class: u16) -> bool {
    class % 100 == 2 || class % 100 == 7 || class % 100 == 8
}

/// Whether a class is a rogue of any tier.
pub fn is_rogue_class(class: u16) -> (r: bool)
    ensures
        r == rogue_class(class),
{
    matches!(class % 100, 2 | 7 | 8)
}

/// Priests of any tier.
pub open spec fn priest_class(class: u16) -> bool {
    class % 100 == 4 || class % 100 == 11 || class % 100 == 12
}

/// Whether a class is a priest of any tier.
pub fn is_priest_class(class: u16) -> (r: bool)
    ensures
        r == priest_class(class),
{
    matches!(class % 100, 4 | 11 | 12)
}

/// Kurians and Porutus of any tier.
pub open spec fn kurian_class(class: u16) -> bool {
    13 <= class % 100 <= 15
}

/// Whether a class is a Kurian or Porutu of any tier.
pub fn is_kurian_class(class: u16) -> (r: bool)
    ensures
        r == kurian_class(class),
{
    matches!(class % 100, 13..=15)
}

/// Index of a class among warrior, rogue, mage and priest; Kurians have none.
pub open spec fn class_group(class: u16) -> Option<int> {
    if warrior_class(class) {
        Some(0)
    } else if rogue_class(class) {
        Some(1)
    } else if mage_class(class) {
        Some(2)
    } else if priest_class(class) {
        Some(3)
    } else {
        None
    }
}

/// The class group index by which set items grant bonuses.
pub fn class_group_index(class: u16) -> (r: Option<usize>)
    ensures
        match r {
            Some(i) => class_group(class) == Some(i as int) && i < 4,
            None => class_group(class) is None,
        },
{
    if is_warrior_class(class) {
        Some(0)
    } else if is_rogue_class(class) {
        Some(1)
    } else if is_mage_class(class) {
        Some(2)
    } else if is_priest_class(class) {
        Some(3)
    } else {
        None
    }
}

/// A skill's class requirement `iclass` restricts its casters where it is 101..=115 or
/// 201..=215; the caster's class type must then be `iclass % 100`.
pub open spec fn skill_class_allows(iclass: i16, player_class: u16) -> bool {
    (101 <= iclass <= 115 || 201 <= iclass <= 215) ==> class_type(player_class) == iclass % 100
}

/// Whether a caster's class meets a skill's class requirement.
pub fn check_skill_class(iclass: i16, player_class: u16) -> (r: bool)
    ensures
        r == skill_class_allows(iclass, player_class),
{
    let class_type: i16 = (player_class % 100) as i16;
    match iclass {
        101 | 201 => class_type == 1,
        102 | 202 => class_type == 2,
        103 | 203 => class_type == 3,
        104 | 204 => class_type == 4,
        105 | 205 => class_type == 5,
        106 | 206 => class_type == 6,
        107 | 207 => class_type == 7,
        108 | 208 => class_type == 8,
        109 | 209 => class_type == 9,
        110 | 210 => class_type == 10,
        111 | 211 => class_type == 11,
        112 | 212 => class_type == 12,
        113 | 213 => class_type == 13,
        114 | 214 => class_type == 14,
        115 | 215 => class_type == 15,
        _ => true,
    }
}

/// Homelands, Eslants, Moradons, the Forgotten Temple, the Abysses and the clan war maps.
pub open spec fn transformation_monster_zone(zone_id: u16) -> bool {
    ||| zone_id == ZONE_KARUS || zone_id == ZONE_KARUS2 || zone_id == ZONE_KARUS3
    ||| zone_id == ZONE_ELMORAD || zone_id == ZONE_ELMORAD2 || zone_id == ZONE_ELMORAD3
    ||| zone_id == ZONE_KARUS_ESLANT || zone_id == ZONE_KARUS_ESLANT2 || zone_id
        == ZONE_KARUS_ESLANT3
    ||| zone_id == ZONE_ELMORAD_ESLANT || zone_id == ZONE_ELMORAD_ESLANT2 || zone_id
        == ZONE_ELMORAD_ESLANT3
    ||| ZONE_MORADON <= zone_id <= ZONE_MORADON5
    ||| zone_id == ZONE_FORGOTTEN_TEMPLE
    ||| zone_id == ZONE_DESPERATION_ABYSS || zone_id == ZONE_HELL_ABYSS
    ||| zone_id == ZONE_CLAN_WAR_ARDREAM || zone_id == ZONE_CLAN_WAR_RONARK
}

/// Whether a player may turn into a monster in a zone where nations can attack each other.
pub fn is_transformation_monster_zone(zone_id: u16) -> (r: bool)
    ensures
        r == transformation_monster_zone(zone_id),
{
    matches!(
        zone_id,
        ZONE_KARUS
        | ZONE_KARUS2
        | ZONE_KARUS3
        | ZONE_ELMORAD
        | ZONE_ELMORAD2
        | ZONE_ELMORAD3
        | ZONE_KARUS_ESLANT
        | ZONE_KARUS_ESLANT2
        | ZONE_KARUS_ESLANT3
        | ZONE_ELMORAD_ESLANT
        | ZONE_ELMORAD_ESLANT2
        | ZONE_ELMORAD_ESLANT3
        | ZONE_MORADON
        | ZONE_MORADON2
        | ZONE_MORADON3
        | ZONE_MORADON4
        | ZONE_MORADON5
        | ZONE_FORGOTTEN_TEMPLE
        | ZONE_DESPERATION_ABYSS
        | ZONE_HELL_ABYSS
        | ZONE_CLAN_WAR_ARDREAM
        | ZONE_CLAN_WAR_RONARK
    )
}

/// The class tables of the two nations agree: a requirement and its counterpart of the other
/// nation let the same casters through.
pub proof fn law_class_requirement_ignores_nation(iclass: i16, player_class: u16)
    requires
        101 <= iclass <= 115,
    ensures
        skill_class_allows(iclass, player_class) == skill_class_allows(
            (iclass + 100) as i16,
            player_class,
        ),
        player_class < 65436 ==> skill_class_allows(iclass, player_class) == skill_class_allows(
            iclass,
            (player_class + 100) as u16,
        ),
{
}

/// No skill is of two of the kinds: staff attack, drain, area attack, charge, mage armor.
pub proof fn law_skill_kinds_are_disjoint(id: u32)
    ensures
        !(staff_skill(id) && drain_skill(id)),
        !(staff_skill(id) && stomp_skill(id)),
        !(staff_skill(id) && rush_skill(id)),
        !(staff_skill(id) && mage_armor_skill(id)),
        !(drain_skill(id) && stomp_skill(id)),
        !(drain_skill(id) && rush_skill(id)),
        !(drain_skill(id) && mage_armor_skill(id)),
        !(stomp_skill(id) && rush_skill(id)),
        !(stomp_skill(id) && mage_armor_skill(id)),
        !(rush_skill(id) && mage_armor_skill(id)),
{
}

/// A skill's number read in its parts, nation, class and number in the tree: whether the nation
/// is one of the two, and the class and tree number are the given ones.
pub open spec fn of_tree(id: u32, class: int, number: int) -> bool {
    (id / 100000 == 1 || id / 100000 == 2) && id % 100000 == 1000 * class + number
}

/// The kinds of skill go by class and tree number, and the two nations have the same ones:
/// staff attacks are of mages of the second and third tier, drains of such rogues, area attacks
/// of such warriors, charges of Kurians.
pub proof fn law_skill_kinds_go_by_class(id: u32)
    ensures
        staff_skill(id) <==> {
            ||| of_tree(id, 9, 542) || of_tree(id, 9, 642) || of_tree(id, 9, 742)
            ||| of_tree(id, 9, 543) || of_tree(id, 9, 643) || of_tree(id, 9, 743)
            ||| of_tree(id, 9, 556) || of_tree(id, 9, 656) || of_tree(id, 9, 756)
            ||| of_tree(id, 10, 542) || of_tree(id, 10, 642) || of_tree(id, 10, 742)
            ||| of_tree(id, 10, 543) || of_tree(id, 10, 643) || of_tree(id, 10, 743)
            ||| of_tree(id, 10, 556) || of_tree(id, 10, 656) || of_tree(id, 10, 756)
            ||| of_tree(id, 10, 572) || of_tree(id, 10, 672) || of_tree(id, 10, 772)
        },
        drain_skill(id) <==> {
            ||| of_tree(id, 7, 610) || of_tree(id, 7, 650)
            ||| of_tree(id, 8, 610) || of_tree(id, 8, 650)
        },
        stomp_skill(id) <==> {
            ||| of_tree(id, 5, 725) || of_tree(id, 5, 735) || of_tree(id, 5, 760)
            ||| of_tree(id, 6, 725) || of_tree(id, 6, 735) || of_tree(id, 6, 760)
            ||| of_tree(id, 6, 775)
        },
        rush_skill(id) <==> of_tree(id, 14, 509) || of_tree(id, 15, 509),
        mage_armor_skill(id) <==> {
            ||| of_tree(id, 90, 573) || of_tree(id, 90, 673) || of_tree(id, 90, 773)
        },
        untargeted_skill(id) <==> of_tree(id, 9, 35) || of_tree(id, 10, 35),
        self_target_skill(id) <==> of_tree(id, 9, 15) || of_tree(id, 10, 15),
        resistance_bypass_skill(id) <==> {
            ||| of_tree(id, 14, 509) || of_tree(id, 15, 509)
            ||| of_tree(id, 90, 673) || of_tree(id, 90, 773)
            ||| id == 492027
        },
        under_castle_skill(id) <==> {
            ||| of_tree(id, 7, 610) || of_tree(id, 7, 650)
            ||| of_tree(id, 8, 610) || of_tree(id, 8, 650)
            ||| of_tree(id, 9, 554) || of_tree(id, 10, 554)
            ||| of_tree(id, 9, 754) || of_tree(id, 10, 754)
            ||| of_tree(id, 11, 745) || of_tree(id, 12, 745)
            ||| of_tree(id, 12, 771)
        },
{
}

/// Armor scrolls do not count against the stabs of rogues: tree numbers 600, 620 and 640 of
/// both advanced tiers, and 670 of the last.
pub proof fn law_stabs_pierce_armor_scrolls(id: u32)
    ensures
        ARMOR_SCROLL_DISABLE_SKILLS@.contains(id) <==> {
            ||| of_tree(id, 7, 600) || of_tree(id, 7, 620) || of_tree(id, 7, 640)
            ||| of_tree(id, 8, 600) || of_tree(id, 8, 620) || of_tree(id, 8, 640)
            ||| of_tree(id, 8, 670)
        },
{
    let s = ARMOR_SCROLL_DISABLE_SKILLS@;
    assert(s[0] == 107640 && s[1] == 108640 && s[2] == 207640 && s[3] == 208640);
    assert(s[4] == 107620 && s[5] == 108620 && s[6] == 207620 && s[7] == 208620);
    assert(s[8] == 107600 && s[9] == 108600 && s[10] == 207600 && s[11] == 208600);
    assert(s[12] == 108670 && s[13] == 208670);
}

/// The jobs of a class number's last two digits: a base job and two advanced tiers for each of
/// warrior, rogue, mage and priest, and three tiers of Kurians. A class has at most one job, the
/// nation's hundreds do not matter, and set items number the four jobs in that order.
pub proof fn law_classes_have_one_job(class: u16)
    ensures
        warrior_class(class) <==> class % 100 == 1 || class % 100 == 5 || class % 100 == 6,
        rogue_class(class) <==> class % 100 == 2 || class % 100 == 7 || class % 100 == 8,
        mage_class(class) <==> class % 100 == 3 || class % 100 == 9 || class % 100 == 10,
        priest_class(class) <==> class % 100 == 4 || class % 100 == 11 || class % 100 == 12,
        kurian_class(class) <==> class % 100 == 13 || class % 100 == 14 || class % 100 == 15,
        class_group(class) == Some(0int) <==> warrior_class(class),
        class_group(class) == Some(1int) <==> rogue_class(class),
        class_group(class) == Some(2int) <==> mage_class(class),
        class_group(class) == Some(3int) <==> priest_class(class),
        kurian_class(class) ==> class_group(class) is None,
{
}

/// A skill that asks for a class lets exactly the casters of that job and tier through; class
/// numbers outside of the two nations' tables ask for nothing.
pub proof fn law_skills_ask_for_their_class(iclass: i16, player_class: u16)
    ensures
        101 <= iclass <= 115 ==> (skill_class_allows(iclass, player_class) <==> player_class % 100
            == iclass - 100),
        201 <= iclass <= 215 ==> (skill_class_allows(iclass, player_class) <==> player_class % 100
            == iclass - 200),
        iclass < 101 || 115 < iclass < 201 || 215 < iclass ==> skill_class_allows(
            iclass,
            player_class,
        ),
{
}

/// Players turn into monsters in the homelands and Eslants of either nation, in Moradon, in the
/// Forgotten Temple, in the Abysses and on the clan war maps, and nowhere else.
pub proof fn law_where_players_turn_into_monsters(zone_id: u16)
    ensures
        transformation_monster_zone(zone_id) <==> {
            ||| zone_id == 1 || zone_id == 2 || 5 <= zone_id <= 8
            ||| 11 <= zone_id <= 16
            ||| 21 <= zone_id <= 25
            ||| zone_id == 55
            ||| zone_id == 32 || zone_id == 33
            ||| zone_id == 77 || zone_id == 78
        },
{
}

} // verus!
