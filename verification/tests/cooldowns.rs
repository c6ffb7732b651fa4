//! Cooldowns of skills and of their kinds.

use ko_game::cast::{CastMemory, cooldown_applies};
use ko_game::constants::{
    MAGIC_CANCEL, MAGIC_CANCEL2, MAGIC_CANCEL_TRANSFORMATION, MAGIC_CASTING, MAGIC_FAIL,
    MAGIC_TYPE4_EXTEND,
};
use ko_game::cooldown::{
    SkillCooldowns, TypeCooldown, check_single_type_cooldown, check_type_cooldown,
    compute_recast_ms, record_type_cooldowns,
};
use ko_game::route::finish_cast;
use ko_game::tables::MagicRow;
use std::collections::HashMap;

#[test]
fn test_cooldown_set_and_check() {
    let skill_id: u32 = 108010;
    let recast_time: i16 = 20;
    let mut cooldowns = SkillCooldowns::new();
    let now: u64 = 50000;
    assert!(
        !cooldowns.on_cooldown(skill_id, now),
        "Skill should not be on cooldown initially"
    );
    let wait = compute_recast_ms(recast_time, false, false);
    assert_eq!(wait, 1800);
    cooldowns.insert(skill_id, now + wait);
    assert!(cooldowns.on_cooldown(skill_id, now), "Skill should be on cooldown after set");
    assert!(!cooldowns.on_cooldown(skill_id, now + 1800));
}

#[test]
fn test_cooldown_expired() {
    let skill_id: u32 = 108020;
    let mut cooldowns = SkillCooldowns::new();
    let now: u64 = 50000;
    cooldowns.insert(skill_id, now - 100);
    assert!(!cooldowns.on_cooldown(skill_id, now), "Expired cooldown should not block cast");
}

#[test]
fn test_cooldown_overwrite_on_recast() {
    let skill_id: u32 = 108030;
    let mut cooldowns = SkillCooldowns::new();
    let now: u64 = 50000;
    cooldowns.insert(skill_id, now + 100);
    cooldowns.insert(skill_id, now + 60000);
    assert_eq!(cooldowns.count(), 1);
    assert!(
        cooldowns.on_cooldown(skill_id, now + 50000),
        "Cooldown should be overwritten with the newer value"
    );
}

#[test]
fn test_cooldown_independent_per_skill() {
    let skill_a: u32 = 109010;
    let skill_b: u32 = 109020;
    let mut cooldowns = SkillCooldowns::new();
    let now: u64 = 50000;
    cooldowns.insert(skill_a, now + 10000);
    assert!(cooldowns.on_cooldown(skill_a, now), "Skill A should be on cooldown");
    assert!(!cooldowns.on_cooldown(skill_b, now), "Skill B should not be on cooldown");
}

#[test]
fn test_cooldown_zero_recast_no_cooldown() {
    let recast_time: i16 = 0;
    assert_eq!(compute_recast_ms(recast_time, false, false), 0);
    let skill = MagicRow { recast_time: Some(recast_time), ..MagicRow::default() };
    let mut memory = CastMemory {
        skill_cooldowns: SkillCooldowns::new(),
        type_cooldowns: HashMap::new(),
        last_type2_skill_id: 0,
        last_type2_cast_time: 0,
        cast_failed: false,
    };
    finish_cast(&mut memory, 108040, &skill, false, false, 50000);
    assert!(
        !memory.skill_cooldowns.on_cooldown(108040, 50000),
        "Zero recast_time should not set cooldown"
    );
    assert_eq!(memory.skill_cooldowns.count(), 0);
}

#[test]
fn test_magic_cancel2_skips_cooldown() {
    let excluded = [
        MAGIC_CANCEL,
        MAGIC_CANCEL2,
        MAGIC_CANCEL_TRANSFORMATION,
        MAGIC_FAIL,
        MAGIC_TYPE4_EXTEND,
    ];
    let skill = MagicRow { type1: Some(1), ..MagicRow::default() };
    for &op in &excluded {
        assert!(
            !cooldown_applies(op, &skill, false, false),
            "opcode {} should be in cooldown exclusion list",
            op
        );
    }
    assert!(cooldown_applies(MAGIC_CASTING, &skill, false, false));
}

#[test]
fn finished_casts_start_their_cooldown() {
    let skill = MagicRow {
        recast_time: Some(20),
        type1: Some(1),
        type2: Some(3),
        use_item: Some(700100000),
        ..MagicRow::default()
    };
    let mut memory = CastMemory {
        skill_cooldowns: SkillCooldowns::new(),
        type_cooldowns: HashMap::new(),
        last_type2_skill_id: 0,
        last_type2_cast_time: 0,
        cast_failed: false,
    };
    let receipt = finish_cast(&mut memory, 101001, &skill, false, false, 50000);
    assert_eq!(receipt.take_item, Some(700100000));
    assert!(memory.skill_cooldowns.on_cooldown(101001, 51799));
    assert!(!memory.skill_cooldowns.on_cooldown(101001, 51800));
    let fresh = TypeCooldown { time: 50000, t_catch: false };
    assert_eq!(memory.type_cooldowns.get(&1), Some(&fresh));
    assert_eq!(memory.type_cooldowns.get(&3), Some(&fresh));
}

#[test]
fn waiting_times_have_floors() {
    assert_eq!(compute_recast_ms(5, true, false), 1000);
    assert_eq!(compute_recast_ms(20, true, false), 1800);
    assert_eq!(compute_recast_ms(5, false, true), 900);
    assert_eq!(compute_recast_ms(-5, false, false), 0);
}

#[test]
fn kinds_wait_for_each_other() {
    let mut entries: HashMap<u8, TypeCooldown> = HashMap::new();
    let now: u64 = 50000;
    assert!(!check_single_type_cooldown(&mut entries, 105010, 1, 0, 0, false, now));
    assert!(entries.is_empty());
    record_type_cooldowns(&mut entries, 1, 0, 0, now);
    assert!(check_single_type_cooldown(&mut entries, 105010, 1, 0, 0, false, now + 649));
    let caught = TypeCooldown { time: now + 649, t_catch: true };
    assert_eq!(entries.get(&1), Some(&caught));
    // a caught request waits 400 ms from there on
    assert!(!check_single_type_cooldown(&mut entries, 105010, 1, 0, 0, false, now + 1049));
    let reset = TypeCooldown { time: now + 1049 - 10000, t_catch: false };
    assert_eq!(entries.get(&1), Some(&reset));
    record_type_cooldowns(&mut entries, 3, 0, -1, now);
    assert!(entries.contains_key(&10) && !entries.contains_key(&3));
    record_type_cooldowns(&mut entries, 3, 0, 5, now);
    assert!(check_single_type_cooldown(&mut entries, 108010, 3, 0, 5, false, now + 574));
    record_type_cooldowns(&mut entries, 3, 0, 5, now);
    assert!(!check_single_type_cooldown(&mut entries, 108010, 3, 0, 5, false, now + 575));
    record_type_cooldowns(&mut entries, 3, 0, 5, now);
    assert!(!check_single_type_cooldown(&mut entries, 108010, 3, 0, 5, true, now + 1));
    record_type_cooldowns(&mut entries, 3, 0, 5, now);
    assert!(check_single_type_cooldown(&mut entries, 109742, 3, 0, 5, false, now + 799));
}

#[test]
fn second_kinds_count_too() {
    let skill = MagicRow {
        magic_num: 101001,
        type1: Some(3),
        type2: Some(4),
        cast_time: Some(5),
        ..MagicRow::default()
    };
    let mut entries: HashMap<u8, TypeCooldown> = HashMap::new();
    record_type_cooldowns(&mut entries, 3, 1, 7, 50000);
    assert!(check_type_cooldown(&mut entries, &skill, 3, 1, false, 50100));
    record_type_cooldowns(&mut entries, 0, 1, 7, 52000);
    assert!(!check_type_cooldown(&mut entries, &skill, 3, 4, false, 52100));
}

/// Beyond fifty entries, those that have expired are dropped.
#[test]
fn old_cooldowns_are_dropped() {
    let mut cooldowns = SkillCooldowns::new();
    for i in 0..50u32 {
        cooldowns.set(100 + i, 1000, 500);
    }
    assert_eq!(cooldowns.count(), 50);
    cooldowns.set(500, 9000, 5000);
    assert_eq!(cooldowns.count(), 1);
    assert!(cooldowns.on_cooldown(500, 5000));
}
