//! Rules of casting: constants, kinds of skills, the checks before a cast, range and items.

use ko_game::cast::{
    CastMemory, CasterState, EventState, Gate, NpcSide, Screening, TargetState, check_cast,
    check_caster, check_events, check_target, dead_caster_blocked, is_animated_skill,
    is_exempt_opcode, is_foreign_skill, normalize_target, redirect_target, screen_request,
    snow_battle_blocked, standing_violated, type2_too_soon,
};
use ko_game::constants::{
    BUFF_TYPE_INVISIBILITY, BUFF_TYPE_KAUL_TRANSFORMATION, BUFF_TYPE_MAGE_ARMOR, ITEM_INFINITYARC,
    MAGIC_CANCEL, MAGIC_CANCEL2, MAGIC_CANCEL_TRANSFORMATION, MAGIC_CASTING, MAGIC_DURATION_EXPIRED,
    MAGIC_EFFECTING, MAGIC_FAIL, MAGIC_FLYING, MAGIC_TYPE4_EXTEND, MORAL_AREA_ALL, MORAL_AREA_ENEMY,
    MORAL_AREA_FRIEND, MORAL_ENEMY, MORAL_EXTEND_DURATION, MORAL_FRIEND_WITHME, MORAL_SELF,
    MORAL_SELF_AREA, NPC_BAND, PET_SUMMON_SKILL, SNOW_EVENT_SKILL, TRANSFORMATION_MONSTER,
    TRANSFORMATION_NPC, TRANSFORMATION_SIEGE, USER_DEAD, USER_SITDOWN, USER_STANDING, ZONE_ARDREAM,
    ZONE_BATTLE2, ZONE_BATTLE3, ZONE_BDW, ZONE_CHAOS_DUNGEON, ZONE_CLAN_WAR_ARDREAM,
    ZONE_CLAN_WAR_RONARK, ZONE_DELOS, ZONE_DESPERATION_ABYSS, ZONE_ELMORAD, ZONE_ELMORAD2,
    ZONE_ELMORAD3, ZONE_ELMORAD_ESLANT, ZONE_ELMORAD_ESLANT2, ZONE_ELMORAD_ESLANT3, ZONE_HELL_ABYSS,
    ZONE_KARUS, ZONE_KARUS2, ZONE_KARUS3, ZONE_KARUS_ESLANT, ZONE_KARUS_ESLANT2, ZONE_KARUS_ESLANT3,
    ZONE_MORADON, ZONE_MORADON2, ZONE_MORADON3, ZONE_MORADON4, ZONE_MORADON5, ZONE_RONARK_LAND,
    ZONE_RONARK_LAND_BASE, ZONE_SNOW_BATTLE,
};
use ko_game::consume::{
    Ammunition, CLASS_STONE_BASE_ID, NO_CONSUME_ITEMS, arrow_count, consume_item, infinity_bypass,
    is_no_consume_item, plan_ammunition, required_item, resolve_consume_item,
};
use ko_game::cooldown::SkillCooldowns;
use ko_game::instance::MagicInstance;
use ko_game::range::{check_skill_range, effective_range};
use ko_game::revive::{
    TYPE5_LIFE_CRYSTAL, TYPE5_REMOVE_BLESS, TYPE5_REMOVE_TYPE3, TYPE5_REMOVE_TYPE4,
    TYPE5_RESURRECTION, TYPE5_RESURRECTION_SELF,
};
use ko_game::skills::{
    ARMOR_SCROLL_DISABLE_SKILLS, check_skill_class, is_armor_scroll_disable_skill, is_drain_skill,
    is_self_target_skill, is_staff_skill, is_stomp_skill, is_transformation_monster_zone,
    is_untargeted_skill,
};
use ko_game::tables::{MagicRow, MagicType2Row};
use ko_game::transform::transformation_type_from_user_skill_use;
use std::collections::HashMap;

fn plain_caster() -> CasterState {
    CasterState {
        res_hp_type: USER_STANDING,
        hp: 500,
        class: 101,
        nation: 1,
        zone_id: ZONE_MORADON,
        blinking: false,
        frozen: false,
        attack_disabled: false,
        store_open: false,
        trading: false,
        merchanting: false,
        moving: false,
        instant_cast: false,
        in_enemy_safety_area: false,
        manes_unlocked: false,
    }
}

fn no_event() -> EventState {
    EventState {
        snow_battle: false,
        in_special_event_zone: false,
        zindan_opened: false,
        cinderella_active: false,
        cinderella_zone: 0,
        in_temple_event_zone: false,
        temple_attackable: false,
        event_attack_allowed: false,
        zone_has_rooms: false,
        caster_room: None,
        target_room: None,
        in_monster_stone_zone: false,
        monster_stone_status: false,
        same_event_room: false,
    }
}

fn known_target() -> TargetState {
    TargetState { npc_dead: false, npc: None, player_known: true }
}

fn fresh_memory() -> CastMemory {
    CastMemory {
        skill_cooldowns: SkillCooldowns::new(),
        type_cooldowns: HashMap::new(),
        last_type2_skill_id: 0,
        last_type2_cast_time: 0,
        cast_failed: false,
    }
}

fn request(opcode: u8, skill_id: u32, target_id: i32) -> MagicInstance {
    MagicInstance { opcode, skill_id, caster_id: 42, target_id, data: [0; 7] }
}

// Constants

#[test]
fn test_magic_opcode_constants() {
    assert_eq!(MAGIC_CASTING, 1);
    assert_eq!(MAGIC_FLYING, 2);
    assert_eq!(MAGIC_EFFECTING, 3);
    assert_eq!(MAGIC_FAIL, 4);
    assert_eq!(MAGIC_DURATION_EXPIRED, 5);
    assert_eq!(MAGIC_CANCEL, 6);
}

#[test]
fn test_moral_constants() {
    assert_eq!(MORAL_SELF, 1);
    assert_eq!(MORAL_ENEMY, 7);
    assert_eq!(MORAL_AREA_ENEMY, 10);
    assert_eq!(MORAL_SELF_AREA, 13);
}

#[test]
fn test_magic_cancel2_constant() {
    assert_eq!(MAGIC_CANCEL2, 13);
}

#[test]
fn test_magic_cancel_transformation_value() {
    assert_eq!(MAGIC_CANCEL_TRANSFORMATION, 7);
}

#[test]
fn test_magic_type4_extend_value() {
    assert_eq!(MAGIC_TYPE4_EXTEND, 8);
}

#[test]
fn test_magic_duration_expired_value() {
    assert_eq!(MAGIC_DURATION_EXPIRED, 5);
}

#[test]
fn test_buff_type_invisibility() {
    assert_eq!(BUFF_TYPE_INVISIBILITY, 100);
}

#[test]
fn test_buff_type_mage_armor_constant() {
    assert_eq!(BUFF_TYPE_MAGE_ARMOR, 25);
}

#[test]
fn test_type5_subtype_constants() {
    assert_eq!(TYPE5_REMOVE_TYPE3, 1);
    assert_eq!(TYPE5_REMOVE_TYPE4, 2);
    assert_eq!(TYPE5_RESURRECTION, 3);
    assert_eq!(TYPE5_RESURRECTION_SELF, 4);
    assert_eq!(TYPE5_REMOVE_BLESS, 5);
    assert_eq!(TYPE5_LIFE_CRYSTAL, 6);
}

#[test]
fn test_transformation_type_constants() {
    assert_eq!(TRANSFORMATION_MONSTER, 1);
    assert_eq!(TRANSFORMATION_NPC, 2);
    assert_eq!(TRANSFORMATION_SIEGE, 3);
}

#[test]
fn test_moral_extend_duration_constant() {
    assert_eq!(240i16, MORAL_EXTEND_DURATION);
}

#[test]
fn test_infinity_arc_constant() {
    assert_eq!(ITEM_INFINITYARC, 800606000);
}

#[test]
fn test_npc_band_boundary() {
    assert_eq!(NPC_BAND, 10000);
    assert!((9999u32) < NPC_BAND);
    assert!((10000u32) >= NPC_BAND);
}

#[test]
fn test_snow_event_skill_constant() {
    assert_eq!(SNOW_EVENT_SKILL, 490077);
}

// Kinds of skills

#[test]
fn test_is_staff_skill_known_ids() {
    assert!(is_staff_skill(109742));
    assert!(is_staff_skill(110742));
    assert!(is_staff_skill(209742));
    assert!(is_staff_skill(210742));
    assert!(is_staff_skill(109542));
    assert!(is_staff_skill(210542));
    assert!(is_staff_skill(109642));
    assert!(is_staff_skill(210642));
    assert!(is_staff_skill(109556));
    assert!(is_staff_skill(210743));
}

#[test]
fn test_is_staff_skill_rejects_non_staff() {
    assert!(!is_staff_skill(107650));
    assert!(!is_staff_skill(105725));
    assert!(!is_staff_skill(100000));
    assert!(!is_staff_skill(0));
}

#[test]
fn test_is_drain_skill_known_ids() {
    assert!(is_drain_skill(107650));
    assert!(is_drain_skill(108650));
    assert!(is_drain_skill(207650));
    assert!(is_drain_skill(208650));
    assert!(is_drain_skill(107610));
    assert!(is_drain_skill(108610));
    assert!(is_drain_skill(207610));
    assert!(is_drain_skill(208610));
}

#[test]
fn test_is_drain_skill_rejects_non_drain() {
    assert!(!is_drain_skill(109742));
    assert!(!is_drain_skill(105725));
    assert!(!is_drain_skill(0));
}

#[test]
fn test_is_stomp_skill_known_ids() {
    assert!(is_stomp_skill(105725));
    assert!(is_stomp_skill(106735));
    assert!(is_stomp_skill(205725));
    assert!(is_stomp_skill(206735));
    assert!(is_stomp_skill(105760));
    assert!(is_stomp_skill(106775));
    assert!(is_stomp_skill(206775));
}

#[test]
fn test_is_stomp_skill_rejects_non_stomp() {
    assert!(!is_stomp_skill(107650));
    assert!(!is_stomp_skill(109742));
    assert!(!is_stomp_skill(0));
}

#[test]
fn test_armor_scroll_disable_skill_ids() {
    assert!(is_armor_scroll_disable_skill(107640));
    assert!(is_armor_scroll_disable_skill(108640));
    assert!(is_armor_scroll_disable_skill(207640));
    assert!(is_armor_scroll_disable_skill(208640));
    assert!(is_armor_scroll_disable_skill(107620));
    assert!(is_armor_scroll_disable_skill(108670));
    assert!(is_armor_scroll_disable_skill(208670));
}

#[test]
fn test_armor_scroll_normal_skill_not_disabled() {
    assert!(!is_armor_scroll_disable_skill(100000));
    assert!(!is_armor_scroll_disable_skill(200000));
    assert!(!is_armor_scroll_disable_skill(0));
    assert!(!is_armor_scroll_disable_skill(999999));
}

#[test]
fn test_armor_scroll_disable_covers_all_14_skills() {
    let disabled = &ARMOR_SCROLL_DISABLE_SKILLS;
    assert_eq!(disabled.len(), 14);
    assert!(disabled.contains(&107600));
    assert!(disabled.contains(&208670));
    assert!(!disabled.iter().any(|&id| id < 100000));
}

#[test]
fn test_special_skill_target_minus1_required() {
    for &skill_id in &[109035u32, 110035, 209035, 210035] {
        assert!(
            is_untargeted_skill(skill_id),
            "Skill {} should match special target=-1 pattern",
            skill_id
        );
    }
    assert!(!is_untargeted_skill(108010));
}

#[test]
fn test_special_skill_self_target_required() {
    for &skill_id in &[109015u32, 110015, 209015, 210015] {
        assert!(
            is_self_target_skill(skill_id),
            "Skill {} should match self-target pattern",
            skill_id
        );
    }
    assert!(!is_self_target_skill(200000));
}

#[test]
fn test_check_skill_class_karu_warrior_pass() {
    assert!(check_skill_class(101, 101));
}

#[test]
fn test_check_skill_class_elmo_warrior_pass() {
    assert!(check_skill_class(201, 201));
}

#[test]
fn test_check_skill_class_rogue_rejects_warrior() {
    assert!(!check_skill_class(101, 102));
}

#[test]
fn test_check_skill_class_guardian_pass() {
    assert!(check_skill_class(106, 106));
}

#[test]
fn test_check_skill_class_guardian_rejects_berserker() {
    assert!(!check_skill_class(105, 106));
}

#[test]
fn test_check_skill_class_berserker_rejects_guardian() {
    assert!(!check_skill_class(106, 105));
}

#[test]
fn test_check_skill_class_mage_pass() {
    assert!(check_skill_class(209, 209));
}

#[test]
fn test_check_skill_class_mage_rejects_priest() {
    assert!(!check_skill_class(104, 209));
}

#[test]
fn test_check_skill_class_kurian_master_pass() {
    assert!(check_skill_class(115, 115));
}

#[test]
fn test_check_skill_class_porutu_master_pass() {
    assert!(check_skill_class(215, 215));
}

#[test]
fn test_check_skill_class_common_passes() {
    assert!(check_skill_class(100, 101));
    assert!(check_skill_class(100, 209));
    assert!(check_skill_class(190, 105));
    assert!(check_skill_class(200, 201));
    assert!(check_skill_class(290, 211));
}

#[test]
fn test_check_skill_class_zero_passes() {
    assert!(check_skill_class(0, 101));
}

#[test]
fn test_check_skill_class_cross_nation_equivalent() {
    assert!(check_skill_class(206, 106));
    assert!(check_skill_class(106, 206));
}

#[test]
fn test_transformation_monster_zone_homelands() {
    assert!(is_transformation_monster_zone(ZONE_KARUS));
    assert!(is_transformation_monster_zone(ZONE_KARUS2));
    assert!(is_transformation_monster_zone(ZONE_KARUS3));
    assert!(is_transformation_monster_zone(ZONE_ELMORAD));
    assert!(is_transformation_monster_zone(ZONE_ELMORAD2));
    assert!(is_transformation_monster_zone(ZONE_ELMORAD3));
}

#[test]
fn test_transformation_monster_zone_eslant() {
    assert!(is_transformation_monster_zone(ZONE_KARUS_ESLANT));
    assert!(is_transformation_monster_zone(ZONE_KARUS_ESLANT2));
    assert!(is_transformation_monster_zone(ZONE_KARUS_ESLANT3));
    assert!(is_transformation_monster_zone(ZONE_ELMORAD_ESLANT));
    assert!(is_transformation_monster_zone(ZONE_ELMORAD_ESLANT2));
    assert!(is_transformation_monster_zone(ZONE_ELMORAD_ESLANT3));
}

#[test]
fn test_transformation_monster_zone_moradon() {
    assert!(is_transformation_monster_zone(ZONE_MORADON));
    assert!(is_transformation_monster_zone(ZONE_MORADON2));
    assert!(is_transformation_monster_zone(ZONE_MORADON3));
    assert!(is_transformation_monster_zone(ZONE_MORADON4));
    assert!(is_transformation_monster_zone(ZONE_MORADON5));
}

#[test]
fn test_transformation_monster_zone_special() {
    assert!(is_transformation_monster_zone(55));
    assert!(is_transformation_monster_zone(ZONE_DESPERATION_ABYSS));
    assert!(is_transformation_monster_zone(ZONE_HELL_ABYSS));
    assert!(is_transformation_monster_zone(ZONE_CLAN_WAR_ARDREAM));
    assert!(is_transformation_monster_zone(ZONE_CLAN_WAR_RONARK));
}

#[test]
fn test_transformation_monster_zone_not_allowed() {
    assert!(!is_transformation_monster_zone(ZONE_ARDREAM));
    assert!(!is_transformation_monster_zone(ZONE_RONARK_LAND));
    assert!(!is_transformation_monster_zone(ZONE_RONARK_LAND_BASE));
    assert!(!is_transformation_monster_zone(ZONE_DELOS));
    assert!(!is_transformation_monster_zone(ZONE_BATTLE2));
    assert!(!is_transformation_monster_zone(ZONE_BATTLE3));
}

#[test]
fn test_transformation_type_from_user_skill_use() {
    assert_eq!(transformation_type_from_user_skill_use(1), Some(TRANSFORMATION_MONSTER));
    for value in [3, 4, 7] {
        assert_eq!(transformation_type_from_user_skill_use(value), Some(TRANSFORMATION_NPC));
    }
    for value in [0, 5, 6] {
        assert_eq!(transformation_type_from_user_skill_use(value), Some(TRANSFORMATION_SIEGE));
    }
    assert_eq!(transformation_type_from_user_skill_use(2), None);
    assert_eq!(transformation_type_from_user_skill_use(0xFF), None);
}

// Checks before a cast

#[test]
fn test_nation_validation_karus_skill() {
    let skill_id: u32 = 107650;
    assert!(skill_id < 300000);
    assert_eq!(skill_id / 100000, 1);
    assert!(!is_foreign_skill(skill_id, 1));
    assert!(is_foreign_skill(skill_id, 2));
}

#[test]
fn test_nation_validation_elmo_skill() {
    let skill_id: u32 = 209742;
    assert!(skill_id < 300000);
    assert_eq!(skill_id / 100000, 2);
    assert!(!is_foreign_skill(skill_id, 2));
    assert!(is_foreign_skill(skill_id, 1));
}

#[test]
fn test_nation_validation_general_skill_skips() {
    let skill_id: u32 = 390001;
    assert!(skill_id >= 300000);
    assert!(!is_foreign_skill(skill_id, 1));
    assert!(!is_foreign_skill(skill_id, 2));
}

#[test]
fn test_use_standing_moving_fails() {
    let use_standing: i16 = 1;
    let move_old_speed: i16 = 45;
    assert!(standing_violated(use_standing, move_old_speed != 0));
}

#[test]
fn test_use_standing_stationary_passes() {
    let use_standing: i16 = 1;
    let move_old_speed: i16 = 0;
    assert!(!standing_violated(use_standing, move_old_speed != 0));
}

#[test]
fn test_moral_self_target_redirection() {
    let caster_id: i32 = 42;
    assert_eq!(
        redirect_target(99, caster_id, MORAL_SELF),
        caster_id,
        "MORAL_SELF must redirect target to caster"
    );
}

#[test]
fn test_moral_friend_withme_npc_redirect() {
    let caster_id: i32 = 42;
    assert_eq!(
        redirect_target(10500, caster_id, MORAL_FRIEND_WITHME),
        caster_id,
        "NPC target redirects to caster"
    );
    assert_eq!(
        redirect_target(50, caster_id, MORAL_FRIEND_WITHME),
        50,
        "Player target: no redirect for MORAL_FRIEND_WITHME"
    );
    assert_eq!(redirect_target(-1, caster_id, MORAL_FRIEND_WITHME), -1);
}

#[test]
fn test_moral_enemy_no_redirect() {
    assert_eq!(redirect_target(99, 42, MORAL_ENEMY), 99, "MORAL_ENEMY must not redirect target");
}

#[test]
fn test_npc_dead_target_validation() {
    let target_id: i32 = 10500;
    assert!((target_id as u32) >= NPC_BAND);
    let dead = TargetState { npc_dead: true, npc: None, player_known: false };
    assert_eq!(check_target(target_id, MORAL_ENEMY, &dead), Gate::Ignore);
    let alive = TargetState { npc_dead: false, ..dead };
    assert_eq!(check_target(target_id, MORAL_ENEMY, &alive), Gate::Pass);
}

#[test]
fn test_player_target_not_found() {
    let gone = TargetState { npc_dead: false, npc: None, player_known: false };
    assert_eq!(check_target(99, MORAL_ENEMY, &gone), Gate::Refuse);
    assert_eq!(check_target(99, MORAL_ENEMY, &known_target()), Gate::Pass);
}

#[test]
fn test_blinking_blocks_casting_flying_effecting() {
    let blocked_opcodes = [MAGIC_CASTING, MAGIC_FLYING, MAGIC_EFFECTING];
    let allowed_opcodes = [
        MAGIC_FAIL,
        MAGIC_CANCEL,
        MAGIC_CANCEL_TRANSFORMATION,
        MAGIC_TYPE4_EXTEND,
        MAGIC_CANCEL2,
    ];
    let skill = MagicRow::default();
    let blinking = CasterState { blinking: true, ..plain_caster() };
    for op in &blocked_opcodes {
        assert!(!is_exempt_opcode(*op), "Opcode {} should be blocked by isBlinking", op);
        assert_eq!(check_caster(*op, 500000, &skill, &blinking, false), Gate::Ignore);
    }
    for op in &allowed_opcodes {
        assert!(is_exempt_opcode(*op), "Opcode {} should be exempt from isBlinking", op);
        assert_eq!(check_caster(*op, 500000, &skill, &blinking, false), Gate::Pass);
    }
}

#[test]
fn test_dead_exempts_type5_resurrection() {
    assert!(
        !dead_caster_blocked(USER_DEAD, 0, 5),
        "Type 5 skill should NOT be blocked for dead caster"
    );
}

#[test]
fn test_dead_blocks_non_type5() {
    for skill_type in [1i16, 2, 3, 4, 6, 7, 8, 9] {
        assert!(
            dead_caster_blocked(USER_DEAD, 0, skill_type),
            "Type {} skill should be blocked for dead caster",
            skill_type
        );
    }
}

#[test]
fn test_snow_battle_blocks_non_event_skill() {
    assert!(
        snow_battle_blocked(ZONE_SNOW_BATTLE, true, 100001),
        "Non-event skill should be blocked during Snow Battle"
    );
}

#[test]
fn test_snow_battle_allows_event_skill() {
    assert!(
        !snow_battle_blocked(ZONE_SNOW_BATTLE, true, SNOW_EVENT_SKILL),
        "Snow event skill should NOT be blocked"
    );
}

#[test]
fn test_snow_battle_no_block_outside_zone() {
    assert!(
        !snow_battle_blocked(21, true, 100001),
        "Skills outside snow zone should not be blocked"
    );
}

#[test]
fn test_snow_battle_no_block_when_inactive() {
    assert!(
        !snow_battle_blocked(ZONE_SNOW_BATTLE, false, 100001),
        "Skills should not be blocked when Snow Battle inactive"
    );
}

#[test]
fn test_animated_skill_check() {
    assert!(is_animated_skill(100, 5, 0, 108010));
    assert!(!is_animated_skill(0, 5, 0, 108010));
    assert!(!is_animated_skill(-1, 5, 0, 108010));
    assert!(!is_animated_skill(100, 0, 0, 108010));
    assert!(!is_animated_skill(100, 5, 255, 108010));
}

#[test]
fn test_type2_recast_prevention() {
    let last_id: u32 = 1000;
    let last_time: u64 = 100;
    let now: u64 = 350;
    let new_skill: u32 = 2000;

    assert!(
        type2_too_soon(last_id, last_time, new_skill, now),
        "different skill within 500ms should fail"
    );
    assert!(
        !type2_too_soon(last_id, last_time, last_id, now),
        "same skill within 500ms should pass"
    );
    let now_later: u64 = 700;
    assert!(
        !type2_too_soon(last_id, last_time, new_skill, now_later),
        "different skill after 500ms should pass"
    );
    assert!(
        !type2_too_soon(0, last_time, new_skill, now),
        "first cast should always pass"
    );
}

/// An animated spell of no particular kind, which anyone may cast.
fn animated_spell() -> MagicRow {
    MagicRow {
        magic_num: 500100,
        t_1: Some(100),
        cast_time: Some(5),
        moral: Some(MORAL_ENEMY),
        type1: Some(3),
        ..MagicRow::default()
    }
}

#[test]
fn test_cast_failed_state_machine() {
    let skill = animated_spell();
    let mut memory = fresh_memory();
    let mut casting = request(MAGIC_CASTING, 500100, 7);
    let moving = CasterState { moving: true, ..plain_caster() };
    let gate = check_cast(
        &mut casting, &skill, &moving, &no_event(), &known_target(), false, &mut memory, 20000,
    );
    assert_eq!(gate, Gate::Pass);
    assert!(memory.cast_failed, "moving during CASTING should set cast_failed");

    let mut effect = request(MAGIC_EFFECTING, 500100, 7);
    let gate = check_cast(
        &mut effect, &skill, &plain_caster(), &no_event(), &known_target(), false, &mut memory,
        20400,
    );
    assert_eq!(gate, Gate::Refuse, "EFFECTING after movement-during-cast should fail");
    assert!(!memory.cast_failed, "cast_failed should be cleared after processing");
}

#[test]
fn test_cast_not_failed_when_standing() {
    let skill = animated_spell();
    let mut memory = fresh_memory();
    let mut casting = request(MAGIC_CASTING, 500100, 7);
    check_cast(
        &mut casting, &skill, &plain_caster(), &no_event(), &known_target(), false, &mut memory,
        20000,
    );
    assert!(!memory.cast_failed, "standing still during CASTING should not fail");
    let mut effect = request(MAGIC_EFFECTING, 500100, 7);
    let gate = check_cast(
        &mut effect, &skill, &plain_caster(), &no_event(), &known_target(), false, &mut memory,
        20400,
    );
    assert_eq!(gate, Gate::Pass);
}

/// In a temple event zone whose combat phase is closed, all magic is refused.
#[test]
fn test_is_attackable_false_blocks_event_user() {
    let event = EventState {
        in_temple_event_zone: true,
        temple_attackable: false,
        event_attack_allowed: true,
        ..no_event()
    };
    assert!(check_events(MORAL_ENEMY, -1, ZONE_BDW, &event));
}

#[test]
fn test_is_attackable_true_allows_event_user() {
    let event = EventState {
        in_temple_event_zone: true,
        temple_attackable: true,
        event_attack_allowed: true,
        ..no_event()
    };
    assert!(!check_events(MORAL_ENEMY, -1, ZONE_BDW, &event));
}

#[test]
fn test_is_attackable_false_non_event_user_also_blocked() {
    let event = EventState {
        in_temple_event_zone: true,
        temple_attackable: false,
        event_attack_allowed: false,
        ..no_event()
    };
    assert!(check_events(MORAL_SELF, -1, ZONE_BDW, &event));
}

#[test]
fn test_is_attackable_chaos_event_user_blocked() {
    let event = EventState {
        in_temple_event_zone: true,
        temple_attackable: false,
        event_attack_allowed: true,
        ..no_event()
    };
    assert!(check_events(MORAL_ENEMY, -1, ZONE_CHAOS_DUNGEON, &event));
}

#[test]
fn test_ms_magic_isolation_same_room_allowed() {
    let event = EventState {
        in_monster_stone_zone: true,
        monster_stone_status: true,
        same_event_room: true,
        ..no_event()
    };
    assert!(!check_events(MORAL_ENEMY, 2, 81, &event));
}

#[test]
fn test_ms_magic_isolation_different_room_blocked() {
    let event = EventState {
        in_monster_stone_zone: true,
        monster_stone_status: true,
        same_event_room: false,
        ..no_event()
    };
    assert!(check_events(MORAL_ENEMY, 2, 82, &event));
}

#[test]
fn test_ms_magic_isolation_one_not_in_room() {
    let event = EventState {
        in_monster_stone_zone: true,
        monster_stone_status: true,
        same_event_room: false,
        ..no_event()
    };
    assert!(check_events(MORAL_ENEMY, 2, 83, &event));
    assert!(!check_events(MORAL_ENEMY, 10500, 83, &event));
}

#[test]
fn test_ms_magic_isolation_status_false_skips_guard() {
    let event = EventState {
        in_monster_stone_zone: true,
        monster_stone_status: false,
        same_event_room: false,
        ..no_event()
    };
    assert!(!check_events(MORAL_ENEMY, 2, 81, &event));
}

#[test]
fn test_non_ms_zone_no_magic_isolation() {
    let event = EventState {
        in_monster_stone_zone: false,
        monster_stone_status: true,
        same_event_room: false,
        ..no_event()
    };
    assert!(!check_events(MORAL_ENEMY, 2, 21, &event));
}

// Range

#[test]
fn test_melee_range_moving() {
    let skill = MagicRow {
        magic_num: 105010,
        type1: Some(1),
        cast_time: Some(0),
        ..MagicRow::default()
    };
    assert_eq!(effective_range(&skill, true), 18);
}

#[test]
fn test_melee_range_standing() {
    let skill = MagicRow {
        magic_num: 105010,
        type1: Some(1),
        cast_time: Some(0),
        ..MagicRow::default()
    };
    assert_eq!(effective_range(&skill, false), 12);
}

#[test]
fn test_staff_range_moving() {
    assert!(is_staff_skill(109742));
    let skill = MagicRow { magic_num: 109742, range: Some(10), ..MagicRow::default() };
    assert_eq!(effective_range(&skill, true), 27);
}

#[test]
fn test_staff_range_standing() {
    let skill = MagicRow { magic_num: 109742, range: Some(10), ..MagicRow::default() };
    assert_eq!(effective_range(&skill, false), 20);
}

#[test]
fn test_drain_range() {
    assert!(is_drain_skill(107650));
    let skill = MagicRow { magic_num: 107650, range: Some(8), ..MagicRow::default() };
    assert_eq!(effective_range(&skill, false), 13);
}

#[test]
fn test_default_range() {
    assert!(!is_staff_skill(104010));
    assert!(!is_drain_skill(104010));
    let skill = MagicRow { magic_num: 104010, range: Some(15), ..MagicRow::default() };
    assert_eq!(effective_range(&skill, false), 24);
}

// Items

fn make_skill(before_action: i32, use_item: i32) -> MagicRow {
    MagicRow {
        magic_num: 100000,
        before_action: Some(before_action),
        use_item: Some(use_item),
        ..MagicRow::default()
    }
}

#[test]
fn test_resolve_consume_item_class_stone() {
    let skill = make_skill(1, 999999);
    assert_eq!(resolve_consume_item(&skill), CLASS_STONE_BASE_ID + 1000);

    let skill = make_skill(4, 999999);
    assert_eq!(resolve_consume_item(&skill), CLASS_STONE_BASE_ID + 4000);
}

#[test]
fn test_resolve_consume_item_job_change() {
    let skill = make_skill(379090000, 800100000);
    assert_eq!(resolve_consume_item(&skill), 800100000);

    let skill = make_skill(379093000, 800100000);
    assert_eq!(resolve_consume_item(&skill), 800100000);
}

#[test]
fn test_resolve_consume_item_special() {
    let skill = make_skill(381001000, 999);
    assert_eq!(resolve_consume_item(&skill), 381001000);
}

#[test]
fn test_resolve_consume_item_default() {
    let skill = make_skill(0, 700100000);
    assert_eq!(resolve_consume_item(&skill), 700100000);

    let skill = make_skill(0, 0);
    assert_eq!(resolve_consume_item(&skill), 0);
}

#[test]
fn test_no_consume_items_list() {
    assert!(NO_CONSUME_ITEMS.contains(&370001000));
    assert!(NO_CONSUME_ITEMS.contains(&370002000));
    assert!(NO_CONSUME_ITEMS.contains(&370003000));
    assert!(!NO_CONSUME_ITEMS.contains(&370004000));
    assert!(!NO_CONSUME_ITEMS.contains(&370005000));
    assert!(!NO_CONSUME_ITEMS.contains(&370006000));
    assert!(NO_CONSUME_ITEMS.contains(&379063000));
    assert!(NO_CONSUME_ITEMS.contains(&379064000));
    assert!(NO_CONSUME_ITEMS.contains(&379065000));
    assert!(NO_CONSUME_ITEMS.contains(&379066000));
    assert!(!NO_CONSUME_ITEMS.contains(&999999));
    assert!(is_no_consume_item(370001000) && !is_no_consume_item(370004000));
}

#[test]
fn test_need_arrow_zero_defaults_to_one() {
    assert_eq!(arrow_count(0), 1);
}

#[test]
fn test_need_arrow_five() {
    assert_eq!(arrow_count(5), 5);
}

#[test]
fn test_infinity_arc_bypass() {
    assert!(infinity_bypass(391010000, true));
    assert!(!infinity_bypass(389023000, true));
}

#[test]
fn test_no_infinity_arc_no_bypass() {
    assert!(!infinity_bypass(391010000, false));
}

// Every gate of a cast, one at a time

fn gate_of(skill: &MagicRow, opcode: u8, caster: &CasterState, event: &EventState) -> Gate {
    let mut m = request(opcode, skill.magic_num as u32, 7);
    check_cast(&mut m, skill, caster, event, &known_target(), false, &mut fresh_memory(), 20000)
}

#[test]
fn casts_pass_and_fail_by_the_state_of_the_caster() {
    let skill = animated_spell();
    let free = no_event();
    assert_eq!(gate_of(&skill, MAGIC_CASTING, &plain_caster(), &free), Gate::Pass);
    let cases = [
        (CasterState { hp: 0, ..plain_caster() }, Gate::Ignore),
        (CasterState { res_hp_type: USER_DEAD, ..plain_caster() }, Gate::Ignore),
        (CasterState { res_hp_type: USER_SITDOWN, ..plain_caster() }, Gate::Ignore),
        (CasterState { blinking: true, ..plain_caster() }, Gate::Ignore),
        (CasterState { frozen: true, ..plain_caster() }, Gate::Ignore),
        (CasterState { attack_disabled: true, ..plain_caster() }, Gate::Refuse),
        (CasterState { store_open: true, ..plain_caster() }, Gate::Refuse),
        (CasterState { trading: true, ..plain_caster() }, Gate::Ignore),
        (CasterState { merchanting: true, ..plain_caster() }, Gate::Ignore),
    ];
    for (caster, expected) in cases {
        assert_eq!(gate_of(&skill, MAGIC_CASTING, &caster, &free), expected, "{:?}", caster);
    }
    let safe = CasterState { in_enemy_safety_area: true, ..plain_caster() };
    let national = MagicRow { magic_num: 101100, ..skill };
    assert_eq!(gate_of(&national, MAGIC_CASTING, &safe, &free), Gate::Refuse);
    assert_eq!(gate_of(&skill, MAGIC_CASTING, &safe, &free), Gate::Pass);
    let foreign = MagicRow { magic_num: 201100, ..skill };
    assert_eq!(gate_of(&foreign, MAGIC_CASTING, &plain_caster(), &free), Gate::Refuse);
    let unlocked = CasterState { manes_unlocked: true, ..plain_caster() };
    assert_eq!(gate_of(&foreign, MAGIC_CASTING, &unlocked, &free), Gate::Pass);
    let guarded = MagicRow { skill: Some(1060), ..skill };
    assert_eq!(gate_of(&guarded, MAGIC_CASTING, &plain_caster(), &free), Gate::Refuse);
    let guardian = CasterState { class: 106, ..plain_caster() };
    assert_eq!(gate_of(&guarded, MAGIC_CASTING, &guardian, &free), Gate::Pass);
    let still = MagicRow { use_standing: Some(1), ..skill };
    let moving = CasterState { moving: true, ..plain_caster() };
    assert_eq!(gate_of(&still, MAGIC_EFFECTING, &moving, &free), Gate::Refuse);
    assert_eq!(gate_of(&still, MAGIC_CASTING, &moving, &free), Gate::Pass);
}

#[test]
fn casts_wait_for_their_cooldown() {
    let skill = animated_spell();
    let mut memory = fresh_memory();
    memory.skill_cooldowns.set(500100, 25000, 20000);
    let mut m = request(MAGIC_CASTING, 500100, 7);
    let caster = plain_caster();
    let free = no_event();
    let target = known_target();
    assert_eq!(
        check_cast(&mut m, &skill, &caster, &free, &target, false, &mut memory, 24999),
        Gate::Refuse
    );
    assert_eq!(
        check_cast(&mut m, &skill, &caster, &free, &target, false, &mut memory, 25000),
        Gate::Pass
    );
    let instant = CasterState { instant_cast: true, ..caster };
    assert_eq!(
        check_cast(&mut m, &skill, &instant, &free, &target, false, &mut memory, 24000),
        Gate::Pass
    );
}

#[test]
fn events_restrict_magic() {
    let special = EventState { in_special_event_zone: true, ..no_event() };
    assert!(check_events(MORAL_ENEMY, 2, ZONE_MORADON, &special));
    assert!(!check_events(MORAL_SELF, 2, ZONE_MORADON, &special));
    let opened = EventState { zindan_opened: true, ..special };
    assert!(!check_events(MORAL_ENEMY, 2, ZONE_MORADON, &opened));
    let cinderella = EventState { cinderella_active: true, cinderella_zone: 21, ..no_event() };
    assert!(check_events(MORAL_AREA_ENEMY, -1, 21, &cinderella));
    assert!(!check_events(MORAL_AREA_ENEMY, -1, 22, &cinderella));
    let rooms = EventState {
        in_temple_event_zone: true,
        temple_attackable: true,
        event_attack_allowed: true,
        zone_has_rooms: true,
        caster_room: Some(1),
        target_room: Some(1),
        ..no_event()
    };
    assert!(!check_events(MORAL_ENEMY, 2, ZONE_BDW, &rooms));
    assert!(check_events(MORAL_ENEMY, 2, ZONE_BDW, &EventState { target_room: Some(2), ..rooms }));
    assert!(check_events(MORAL_ENEMY, 2, ZONE_BDW, &EventState { caster_room: None, ..rooms }));
    let closed = EventState { event_attack_allowed: false, ..rooms };
    assert!(check_events(MORAL_ENEMY, 2, ZONE_BDW, &closed));
    assert!(!check_events(MORAL_SELF, 2, ZONE_BDW, &closed));
}

#[test]
fn requests_are_screened() {
    let m = request(MAGIC_CASTING, 108010, 7);
    assert_eq!(screen_request(&m, 42, false), Screening::LookUp);
    assert_eq!(screen_request(&m, 42, true), Screening::Ignore);
    assert_eq!(screen_request(&m, 41, false), Screening::Ignore);
    let none = MagicInstance { skill_id: 0, ..m };
    assert_eq!(screen_request(&none, 42, false), Screening::Ignore);
    let cancel = MagicInstance { opcode: MAGIC_CANCEL_TRANSFORMATION, ..m };
    assert_eq!(screen_request(&cancel, 42, true), Screening::CancelTransformation);
    let pet = MagicInstance { opcode: MAGIC_EFFECTING, skill_id: PET_SUMMON_SKILL, ..m };
    assert_eq!(screen_request(&pet, 42, true), Screening::SummonPet);
    let ground = MagicInstance { skill_id: 109035, ..m };
    assert_eq!(screen_request(&ground, 42, false), Screening::Refuse);
    let ground = MagicInstance { target_id: -1, ..ground };
    assert_eq!(screen_request(&ground, 42, false), Screening::LookUp);
    let own = MagicInstance { skill_id: 109015, ..m };
    assert_eq!(screen_request(&own, 42, false), Screening::Refuse);
    let own = MagicInstance { target_id: 42, ..own };
    assert_eq!(screen_request(&own, 42, false), Screening::LookUp);
}

#[test]
fn neutral_npcs_are_refused() {
    let neutral = TargetState {
        npc_dead: false,
        npc: Some(NpcSide { group: 3, nation: 0 }),
        player_known: false,
    };
    assert_eq!(check_target(10500, MORAL_ENEMY, &neutral), Gate::Refuse);
    assert_eq!(check_target(10500, MORAL_SELF, &neutral), Gate::Pass);
    assert_eq!(check_target(-1, MORAL_ENEMY, &neutral), Gate::Pass);
}

#[test]
fn area_skills_aim_at_the_ground() {
    assert_eq!(normalize_target(0, MORAL_AREA_ENEMY), -1);
    assert_eq!(normalize_target(0, MORAL_AREA_FRIEND), -1);
    assert_eq!(normalize_target(0, MORAL_AREA_ALL), -1);
    assert_eq!(normalize_target(0, MORAL_ENEMY), 0);
    assert_eq!(normalize_target(5, MORAL_AREA_ENEMY), 5);
}

#[test]
fn reach_has_its_exceptions() {
    let far = MagicRow { use_item: Some(391010000), range: Some(3), ..MagicRow::default() };
    assert_eq!(effective_range(&far, false), 55);
    let kaul = MagicRow {
        type1: Some(8),
        t_1: Some(BUFF_TYPE_KAUL_TRANSFORMATION),
        range: Some(1),
        ..MagicRow::default()
    };
    assert_eq!(effective_range(&kaul, false), 6);
    let slow = MagicRow { range: Some(15), ..animated_spell() };
    assert_eq!(effective_range(&slow, false), 30);
    assert_eq!(check_skill_range(Some(21), Some(21), &slow, false), Some(30));
    assert_eq!(check_skill_range(Some(21), Some(22), &slow, false), None);
    assert_eq!(check_skill_range(None, Some(21), &slow, false), None);
    assert_eq!(check_skill_range(Some(21), None, &slow, false), None);
}

#[test]
fn ammunition_is_counted() {
    let bow = MagicRow { use_item: Some(391010000), ..MagicRow::default() };
    let row = Some(MagicType2Row {
        i_num: 200000,
        hit_type: None,
        hit_rate: None,
        add_damage: None,
        need_arrow: Some(3),
        add_dmg_perc_to_user: None,
        add_dmg_perc_to_npc: None,
    });
    let taken = Ammunition::Take { item: 391010000, count: 3 };
    assert_eq!(plan_ammunition(&bow, &row, false, false, 3), taken);
    assert_eq!(plan_ammunition(&bow, &row, false, false, 2), Ammunition::Missing);
    assert_eq!(plan_ammunition(&bow, &row, false, true, 0), Ammunition::Free);
    assert_eq!(plan_ammunition(&bow, &row, true, false, 0), Ammunition::Free);
    assert_eq!(plan_ammunition(&bow, &None, false, false, 0), Ammunition::Free);
    assert_eq!(plan_ammunition(&MagicRow::default(), &row, false, false, 0), Ammunition::Free);
}

#[test]
fn needed_items_are_the_taken_ones() {
    let stone = make_skill(2, 5);
    assert_eq!(consume_item(&stone), Some(379062000));
    assert_eq!(required_item(&stone, 3, false), Some(379062000));
    assert_eq!(required_item(&stone, 2, false), None);
    assert_eq!(required_item(&stone, 6, false), None);
    assert_eq!(required_item(&stone, 3, true), None);
    assert_eq!(consume_item(&make_skill(0, 370001000)), None);
    assert_eq!(consume_item(&make_skill(0, 0)), None);
}
