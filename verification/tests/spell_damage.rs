//! Spell damage. The floating-point steps between the library's stages are made here, as a
//! server makes them.

use ko_game::constants::{USER_STANDING, ZONE_SNOW_BATTLE};
use ko_game::notices::build_dead;
use ko_game::packet::PacketReader;
use ko_game::skills::is_mage_class;
use ko_game::spell::{
    ClassBonusStats, MagicDamageContext, MagicStages, MagicTargetKind, NpcResistances,
    apply_magic_class_bonus, apply_magic_damage_reduction, build_npc_ctx, build_player_ctx,
    compute_magic_amount, compute_magic_damage, get_npc_target_resistance, magic_class_factor,
    resist_damage, roll_magic_spread, row_damage, scale_by_power, settle_spell, use_magic_formula,
    weapon_level_part,
};
use ko_game::spell_cast::{SNOW_BATTLE_DAMAGE, SpellGate, SpellTarget, check_spell};
use ko_game::victim::{SkillDamage, Victim, apply_skill_damage};
use rand::rngs::StdRng;
use rand::{Rng, SeedableRng};

struct Caster {
    class: u16,
    level: u8,
    strength: u8,
    cha: u8,
}

fn make_test_character(
    class: u16,
    str_val: u8,
    _sta: u8,
    _dex: u8,
    _intel: u8,
    cha: u8,
) -> Caster {
    Caster { class, level: 60, strength: str_val, cha }
}

fn make_test_ctx(target_kind: MagicTargetKind) -> MagicDamageContext {
    MagicDamageContext {
        target_kind,
        target_total_r: 0,
        target_class: 1,
        target_ac_amount: 0,
        is_war_zone: false,
        righthand_damage: 0,
        attribute_damage: 0,
        attribute: 1,
    }
}

/// All stages of a spell's damage, with the class multiplier that applies to its target.
fn spell_with_multiplier(
    caster: &Caster,
    base_damage: i32,
    magic_attack_amount: i32,
    ctx: &MagicDamageContext,
    multiplier: f64,
    rng: &mut StdRng,
) -> i16 {
    let cha = caster.cha.max(1) as f32;
    let charmed_hit = (base_damage as f32 * cha / 102.5).ceil() as i32;
    let hit = if is_mage_class(caster.class) { charmed_hit } else { base_damage };
    let amount = compute_magic_amount(caster.class, magic_attack_amount);
    let mut damage = resist_damage(scale_by_power(hit, amount), ctx.target_total_r);
    if ctx.target_kind == MagicTargetKind::Player {
        damage = (damage as f64 * multiplier) as i32;
    }
    let half = damage / 2;
    let random = if half > 0 { rng.gen_range(0..=half) } else { rng.gen_range(half..=0) };
    let rh = ctx.righthand_damage as f32 * 0.8
        + weapon_level_part(ctx.righthand_damage, caster.level) as f32;
    let attr = ctx.attribute_damage as f32 * 0.8
        + weapon_level_part(ctx.attribute_damage, caster.level) as f32;
    let stages = MagicStages {
        charmed_hit,
        blended: (random as f32 * 0.1 + damage as f32 * 0.85) as i32,
        weapon_part: (rh + attr) as i32,
    };
    compute_magic_damage(caster.class, base_damage, magic_attack_amount, &stages, ctx)
}

fn plain_spell(
    caster: &Caster,
    base_damage: i32,
    magic_attack_amount: i32,
    ctx: &MagicDamageContext,
    rng: &mut StdRng,
) -> i16 {
    spell_with_multiplier(caster, base_damage, magic_attack_amount, ctx, 1.0, rng)
}

#[test]
fn test_compute_magic_damage_mage() {
    let ch = make_test_character(103, 20, 20, 20, 20, 80);
    let ctx = make_test_ctx(MagicTargetKind::Player);
    let mut rng = StdRng::seed_from_u64(42);
    let damage = plain_spell(&ch, -500, 0, &ctx, &mut rng);
    assert!(damage > 100, "Mage magic should deal damage, got {}", damage);
    assert!(damage < 350, "Mage damage {} too high for base=500, r=0, /2", damage);
}

#[test]
fn test_compute_magic_damage_warrior() {
    let ch = make_test_character(101, 90, 60, 30, 20, 10);
    let ctx = make_test_ctx(MagicTargetKind::Player);
    let mut rng = StdRng::seed_from_u64(42);
    let damage = plain_spell(&ch, -50, 0, &ctx, &mut rng);
    assert!(damage >= 0, "Warrior magic should be >= 0, got {}", damage);
}

#[test]
fn test_compute_magic_damage_zero() {
    let ch = make_test_character(103, 20, 20, 20, 20, 80);
    let ctx = make_test_ctx(MagicTargetKind::Player);
    let mut rng = StdRng::seed_from_u64(42);
    let damage = plain_spell(&ch, 0, 0, &ctx, &mut rng);
    assert_eq!(damage, 0);
}

#[test]
fn test_compute_magic_damage_priest_no_cha() {
    let ch = make_test_character(104, 20, 20, 20, 20, 80);
    let ctx = make_test_ctx(MagicTargetKind::Player);
    let mut rng = StdRng::seed_from_u64(42);
    let damage = plain_spell(&ch, -100, 0, &ctx, &mut rng);
    assert!(damage >= 0, "Should be non-negative, got {}", damage);
}

#[test]
fn test_compute_magic_damage_with_magic_attack_amount() {
    let ch = make_test_character(103, 20, 20, 20, 20, 80);
    let ctx = make_test_ctx(MagicTargetKind::Player);
    let mut rng_base = StdRng::seed_from_u64(42);
    let base = plain_spell(&ch, -500, 0, &ctx, &mut rng_base);
    let mut rng_boost = StdRng::seed_from_u64(42);
    let boosted = plain_spell(&ch, -500, 20, &ctx, &mut rng_boost);
    assert!(
        boosted > base,
        "magic_attack_amount=20 should increase damage: base={}, boosted={}",
        base,
        boosted
    );
    let mut rng_red = StdRng::seed_from_u64(42);
    let reduced = plain_spell(&ch, -500, -20, &ctx, &mut rng_red);
    assert!(
        reduced < base,
        "magic_attack_amount=-20 should decrease damage: base={}, reduced={}",
        base,
        reduced
    );
}

#[test]
fn test_compute_magic_damage_zero_magic_attack_no_change() {
    let ch = make_test_character(101, 60, 20, 20, 20, 20);
    let ctx = make_test_ctx(MagicTargetKind::Player);
    let mut rng = StdRng::seed_from_u64(42);
    let d0 = plain_spell(&ch, -100, 0, &ctx, &mut rng);
    assert!(d0 >= 0, "Should be non-negative: {}", d0);
}

#[test]
fn test_compute_magic_damage_resistance_reduces() {
    let ch = make_test_character(103, 20, 20, 20, 20, 80);
    let ctx_no_r = make_test_ctx(MagicTargetKind::Player);
    let mut ctx_high_r = make_test_ctx(MagicTargetKind::Player);
    ctx_high_r.target_total_r = 200;
    let mut rng1 = StdRng::seed_from_u64(42);
    let dmg_no_r = plain_spell(&ch, -300, 0, &ctx_no_r, &mut rng1);
    let mut rng2 = StdRng::seed_from_u64(42);
    let dmg_high_r = plain_spell(&ch, -300, 0, &ctx_high_r, &mut rng2);
    assert!(
        dmg_no_r > dmg_high_r,
        "Higher resistance should reduce damage: no_r={}, high_r={}",
        dmg_no_r,
        dmg_high_r
    );
}

#[test]
fn test_compute_magic_damage_war_zone_halving() {
    let ch = make_test_character(103, 20, 20, 20, 20, 80);
    let ctx_normal = make_test_ctx(MagicTargetKind::Player);
    let mut ctx_war = make_test_ctx(MagicTargetKind::Player);
    ctx_war.is_war_zone = true;
    let mut rng1 = StdRng::seed_from_u64(42);
    let dmg_normal = plain_spell(&ch, -500, 0, &ctx_normal, &mut rng1);
    let mut rng2 = StdRng::seed_from_u64(42);
    let dmg_war = plain_spell(&ch, -500, 0, &ctx_war, &mut rng2);
    assert_eq!(dmg_war, dmg_normal);
}

#[test]
fn test_compute_magic_damage_npc_target_formula() {
    let ch = make_test_character(103, 20, 20, 20, 20, 80);
    let ctx_player = make_test_ctx(MagicTargetKind::Player);
    let ctx_npc = make_test_ctx(MagicTargetKind::Npc);
    let mut rng1 = StdRng::seed_from_u64(42);
    let _dmg_player = plain_spell(&ch, -300, 0, &ctx_player, &mut rng1);
    let mut rng2 = StdRng::seed_from_u64(42);
    let dmg_npc = plain_spell(&ch, -300, 0, &ctx_npc, &mut rng2);
    assert!(dmg_npc > 0, "Mage vs NPC should deal damage: {}", dmg_npc);
}

#[test]
fn test_compute_magic_damage_warrior_vs_npc_zero() {
    let ch = make_test_character(101, 90, 60, 30, 20, 10);
    let ctx = make_test_ctx(MagicTargetKind::Npc);
    let mut rng = StdRng::seed_from_u64(42);
    let damage = plain_spell(&ch, -200, 0, &ctx, &mut rng);
    assert_eq!(damage, 0, "Warrior magic vs NPC should be 0");
}

#[test]
fn test_compute_magic_damage_max_cap() {
    let ch = make_test_character(103, 20, 20, 20, 20, 255);
    let ctx = make_test_ctx(MagicTargetKind::Player);
    let mut rng = StdRng::seed_from_u64(42);
    let damage = plain_spell(&ch, -30000, 100, &ctx, &mut rng);
    assert!(damage <= 32000, "Damage {} exceeds MAX_DAMAGE", damage);
    let npc = make_test_ctx(MagicTargetKind::Npc);
    assert_eq!(settle_spell(103, -100000, 270, 0, &npc), 32000);
}

#[test]
fn test_compute_magic_damage_class_multiplier() {
    let ch = make_test_character(103, 20, 20, 20, 20, 80);
    let ctx_warrior_target = MagicDamageContext {
        target_class: 101,
        ..make_test_ctx(MagicTargetKind::Player)
    };
    let ctx_mage_target = MagicDamageContext {
        target_class: 103,
        ..make_test_ctx(MagicTargetKind::Player)
    };
    let mut rng1 = StdRng::seed_from_u64(42);
    let dmg_vs_warrior =
        spell_with_multiplier(&ch, -400, 0, &ctx_warrior_target, 0.5, &mut rng1);
    let mut rng2 = StdRng::seed_from_u64(42);
    let dmg_vs_mage = spell_with_multiplier(&ch, -400, 0, &ctx_mage_target, 1.0, &mut rng2);
    assert!(
        dmg_vs_warrior < dmg_vs_mage,
        "Mage at warrior (0.5x) should be less than mage at mage (1.0x): warrior={}, mage={}",
        dmg_vs_warrior,
        dmg_vs_mage
    );
}

#[test]
fn test_weapon_damage_contribution_fire() {
    let ch = make_test_character(103, 20, 20, 20, 20, 80);
    let ctx_no_weapon = make_test_ctx(MagicTargetKind::Player);
    let mut ctx_with_weapon = make_test_ctx(MagicTargetKind::Player);
    ctx_with_weapon.righthand_damage = 50;
    ctx_with_weapon.attribute_damage = 10;
    ctx_with_weapon.attribute = 1;

    let mut rng1 = StdRng::seed_from_u64(42);
    let dmg_no_weapon = plain_spell(&ch, -500, 0, &ctx_no_weapon, &mut rng1);
    let mut rng2 = StdRng::seed_from_u64(42);
    let dmg_with_weapon = plain_spell(&ch, -500, 0, &ctx_with_weapon, &mut rng2);

    assert!(
        dmg_with_weapon > dmg_no_weapon,
        "Weapon should increase magic damage: with_weapon={}, no_weapon={}",
        dmg_with_weapon,
        dmg_no_weapon
    );
}

#[test]
fn test_weapon_damage_reduction_skipped_for_magic_r() {
    let ch = make_test_character(103, 20, 20, 20, 20, 80);
    let mut ctx_magic_r = make_test_ctx(MagicTargetKind::Player);
    ctx_magic_r.righthand_damage = 100;
    ctx_magic_r.attribute_damage = 20;
    ctx_magic_r.attribute = 4;

    let ctx_no_weapon = make_test_ctx(MagicTargetKind::Player);

    let mut rng1 = StdRng::seed_from_u64(42);
    let dmg_magic_r = plain_spell(&ch, -500, 0, &ctx_magic_r, &mut rng1);
    let mut rng2 = StdRng::seed_from_u64(42);
    let dmg_no_weapon = plain_spell(&ch, -500, 0, &ctx_no_weapon, &mut rng2);

    assert_eq!(
        dmg_magic_r, dmg_no_weapon,
        "MAGIC_R should skip the weapon: magic_r={}, no_weapon={}",
        dmg_magic_r, dmg_no_weapon
    );
}

#[test]
fn test_weapon_damage_contribution_formula_values() {
    let ch = make_test_character(103, 20, 20, 20, 20, 80);

    let mut ctx = make_test_ctx(MagicTargetKind::Player);
    ctx.righthand_damage = 100;
    ctx.attribute_damage = 0;
    ctx.attribute = 1;

    let mut rng1 = StdRng::seed_from_u64(42);
    let dmg_rh100 = plain_spell(&ch, -500, 0, &ctx, &mut rng1);

    ctx.righthand_damage = 0;
    let mut rng2 = StdRng::seed_from_u64(42);
    let dmg_rh0 = plain_spell(&ch, -500, 0, &ctx, &mut rng2);

    let diff = dmg_rh100 - dmg_rh0;
    assert!(
        (55..=65).contains(&diff),
        "Weapon contribution for rh=100 should be ~60 after player /3: diff={}",
        diff
    );
}

#[test]
fn test_weapon_damage_contribution_attribute_only() {
    let ch = make_test_character(103, 20, 20, 20, 20, 80);
    let mut ctx = make_test_ctx(MagicTargetKind::Player);
    ctx.righthand_damage = 0;
    ctx.attribute_damage = 30;
    ctx.attribute = 3;

    let ctx_no_attr = make_test_ctx(MagicTargetKind::Player);

    let mut rng1 = StdRng::seed_from_u64(42);
    let dmg_with_attr = plain_spell(&ch, -500, 0, &ctx, &mut rng1);
    let mut rng2 = StdRng::seed_from_u64(42);
    let dmg_no_attr = plain_spell(&ch, -500, 0, &ctx_no_attr, &mut rng2);

    assert!(
        dmg_with_attr > dmg_no_attr,
        "Attribute damage should increase magic damage: with={}, without={}",
        dmg_with_attr,
        dmg_no_attr
    );
}

#[test]
fn test_weapon_damage_contribution_warrior() {
    let ch = make_test_character(101, 90, 60, 30, 20, 10);
    let mut ctx = make_test_ctx(MagicTargetKind::Player);
    ctx.righthand_damage = 80;
    ctx.attribute = 1;

    let ctx_no_weapon = make_test_ctx(MagicTargetKind::Player);

    let mut rng1 = StdRng::seed_from_u64(42);
    let dmg_with = plain_spell(&ch, -100, 0, &ctx, &mut rng1);
    let mut rng2 = StdRng::seed_from_u64(42);
    let dmg_without = plain_spell(&ch, -100, 0, &ctx_no_weapon, &mut rng2);

    assert!(
        dmg_with >= dmg_without,
        "Warrior weapon contribution: with={}, without={}",
        dmg_with,
        dmg_without
    );
}

#[test]
fn test_apply_magic_damage_reduction_no_reduction() {
    let result = apply_magic_damage_reduction(200, 100);
    assert_eq!(result, 200, "No reduction (100%) should leave damage unchanged");
}

#[test]
fn test_apply_magic_damage_reduction_with_elysian_web() {
    let result = apply_magic_damage_reduction(200, 70);
    assert_eq!(result, 140, "70% reduction should yield 140 from 200");
}

#[test]
fn test_apply_magic_damage_reduction_zero_floor() {
    let result = apply_magic_damage_reduction(500, 0);
    assert_eq!(result, 0, "0% reduction should yield 0");
}

struct Fighter {
    class: u16,
    strength: u8,
    sta: u8,
}

fn make_char(class: u16, str_val: u8, sta: u8) -> Fighter {
    Fighter { class, strength: str_val, sta }
}

/// The class bonus between two players, with the set items of each where they are known.
fn class_bonus(
    damage: i16,
    caster: &Fighter,
    target: &Fighter,
    caster_items: Option<ClassBonusStats>,
    target_items: Option<ClassBonusStats>,
) -> i16 {
    let factor = magic_class_factor(
        caster.class,
        caster.strength,
        &caster_items,
        target.class,
        target.sta,
        &target_items,
    );
    let scaled = (factor.unwrap_or(0) as f32 * (damage as f32 / 100.0)) as i32;
    apply_magic_class_bonus(damage, factor, scaled)
}

fn no_items() -> ClassBonusStats {
    ClassBonusStats {
        attack_amount: 100,
        player_attack_amount: 100,
        ac_class_bonus: [0; 4],
        ap_class_bonus: [0; 4],
    }
}

#[test]
fn test_magic_class_bonus_mage_caster_no_effect() {
    let caster = make_char(103, 100, 100);
    let target = make_char(101, 100, 100);
    let damage = class_bonus(100, &caster, &target, Some(no_items()), Some(no_items()));
    assert_eq!(damage, 100, "Mage caster should not have class bonus applied");
}

#[test]
fn test_magic_class_bonus_mage_novice_caster_no_effect() {
    let caster = make_char(109, 100, 100);
    let target = make_char(101, 100, 100);
    let damage = class_bonus(100, &caster, &target, Some(no_items()), Some(no_items()));
    assert_eq!(damage, 100, "MageNovice caster should not have class bonus applied");
}

#[test]
fn test_magic_class_bonus_warrior_caster_applies() {
    let caster = make_char(101, 150, 100);
    let target = make_char(103, 100, 100);
    let damage = class_bonus(100, &caster, &target, None, None);
    assert!(damage > 0, "Warrior caster class bonus should return positive damage");
    assert_eq!(damage, 100);
    // 450 * 100 / 5 * 100 / 100 = 9000 twice, over 200 + 240: a factor of 40 percent
    assert_eq!(class_bonus(100, &caster, &target, Some(no_items()), Some(no_items())), 40);
}

#[test]
fn test_magic_class_bonus_priest_caster_applies() {
    let caster = make_char(104, 150, 100);
    let target = make_char(102, 100, 100);
    let damage = class_bonus(100, &caster, &target, None, None);
    assert!(damage > 0, "Priest caster class bonus should return positive damage");
}

#[test]
fn test_magic_class_bonus_rogue_caster_applies() {
    let caster = make_char(102, 150, 100);
    let target = make_char(104, 100, 100);
    let damage = class_bonus(100, &caster, &target, None, None);
    assert!(damage > 0, "Rogue caster class bonus should return positive damage");
}

#[test]
fn test_magic_class_bonus_kurian_caster_no_group() {
    let caster = make_char(113, 150, 100);
    let target = make_char(101, 100, 100);
    let damage = class_bonus(100, &caster, &target, Some(no_items()), Some(no_items()));
    assert_eq!(damage, 100, "Kurian caster should return unchanged damage");
}

#[test]
fn test_magic_class_bonus_kurian_target_no_group() {
    let caster = make_char(101, 150, 100);
    let target = make_char(113, 100, 100);
    let damage = class_bonus(100, &caster, &target, Some(no_items()), Some(no_items()));
    assert_eq!(damage, 100, "Kurian target should return unchanged damage");
}

#[test]
fn test_magic_class_bonus_zero_damage_stays_zero() {
    let caster = make_char(101, 150, 100);
    let target = make_char(103, 100, 100);
    let damage = class_bonus(0, &caster, &target, None, None);
    assert!(damage >= 0, "Zero damage should stay at zero or clamp to min");
    assert_eq!(damage, 0);
    assert_eq!(class_bonus(0, &caster, &target, Some(no_items()), Some(no_items())), 1);
}

#[test]
fn test_integration_pvp_magic_kill_flow() {
    let caster = make_test_character(103, 20, 20, 20, 80, 100);
    assert_eq!(caster.strength, 20);
    let test_ctx = make_test_ctx(MagicTargetKind::Player);
    let mut test_rng = StdRng::seed_from_u64(42);
    let magic_damage = plain_spell(&caster, -2000, 0, &test_ctx, &mut test_rng);
    assert!(magic_damage > 0, "Magic damage should be positive");

    let victim = Victim {
        hp: 50,
        mp: 200,
        max_mp: 200,
        authority: 1,
        mastered: false,
        master_points: 0,
        zone_id: 21,
        in_party: false,
        magic_damage_reduction: 100,
        mirror_damage: false,
        mirror_damage_type: false,
        mirror_amount: 0,
        mana_absorb: 0,
        absorb_count: 0,
    };
    match apply_skill_damage(Some(1), &None, &victim, magic_damage) {
        SkillDamage::Dealt(wound) => {
            assert_eq!(wound.hp, 0, "Target should be dead (HP=0)");
            assert!(wound.dies);
        }
        SkillDamage::Shown => panic!("the hit must land"),
    }

    let target_sid: u16 = 2;
    let dead_pkt = build_dead(target_sid as u32);
    let mut r = PacketReader::new(&dead_pkt.data);
    assert_eq!(r.read_u32(), Some(target_sid as u32));
    assert_eq!(r.remaining(), 0);
}

#[test]
fn test_integration_class_bonus_and_flash_stacking() {
    let caster = make_char(101, 200, 100);
    let target = make_char(103, 100, 100);
    let base_damage: i16 = 100;
    let class_damage = class_bonus(base_damage, &caster, &target, Some(no_items()), None);
    assert!(class_damage > 0, "Class bonus should return positive damage for warrior");

    let flash_dc: u8 = 20;
    let flash_mult = 1.0 + (flash_dc as f64 / 100.0);
    let final_damage = (class_damage as f64 * flash_mult) as i16;
    assert!(
        final_damage >= class_damage,
        "Flash DC bonus should increase or maintain damage: {} >= {}",
        final_damage,
        class_damage
    );
}

#[test]
fn test_snow_battle_type3_damage_override() {
    let hit = SpellTarget {
        state: Some((USER_STANDING, 100)),
        blinking: false,
        blocks_magic: false,
        in_range: true,
        caster_present: true,
        hostile: true,
        caster_zone: ZONE_SNOW_BATTLE,
        snow_battle: true,
        stats_known: true,
    };
    assert_eq!(check_spell(&hit), SpellGate::Snowball);
    assert_eq!(
        SNOW_BATTLE_DAMAGE, 10,
        "Type3 damage should be overridden to 10 during Snow Battle"
    );
}

#[test]
fn test_buff_attack_amount_displayed_total_hit() {
    let total_hit: u16 = 500;
    let attack_amount: u32 = 120;
    let displayed = (total_hit as u32 * attack_amount / 100) as u16;
    assert_eq!(displayed, 600);

    let displayed_no_buff = (total_hit as u32 * 100 / 100) as u16;
    assert_eq!(displayed_no_buff, 500);
}

#[test]
fn test_displayed_resistance_with_buff() {
    let base_r: i32 = 50;
    let add_r: i32 = 20;
    let resistance_bonus: i32 = 30;
    let pct_r: i32 = 100;
    let result = ((base_r + add_r + resistance_bonus) * pct_r / 100).max(0) as u16;
    assert_eq!(result, 100);

    let pct_r2: i32 = 70;
    let result2 = ((base_r + add_r + resistance_bonus) * pct_r2 / 100).max(0) as u16;
    assert_eq!(result2, 70);
}

#[test]
fn stages_have_exact_values() {
    assert_eq!(compute_magic_amount(103, 20), 190);
    assert_eq!(compute_magic_amount(101, -20), 80);
    assert_eq!(scale_by_power(-390, 170), -663);
    assert_eq!(scale_by_power(-1, 150), -1);
    assert_eq!(resist_damage(-663, 0), -630);
    assert_eq!(resist_damage(-663, 200), -452);
    assert_eq!(weapon_level_part(50, 60), 50);
    assert_eq!(weapon_level_part(-7, 59), -6);
    let player = make_test_ctx(MagicTargetKind::Player);
    let npc = make_test_ctx(MagicTargetKind::Npc);
    // (-535 - 170 - 180) / 3
    assert_eq!(settle_spell(103, -535, 170, 180, &player), 295);
    assert_eq!(settle_spell(103, -535, 170, 180, &npc), 885);
    // ((-535 - 100) / 2 = -317, and 30 percent more = -412) / 3
    assert_eq!(settle_spell(101, -535, 100, 0, &player), 137);
    let armored = MagicDamageContext { target_ac_amount: 100, ..player };
    assert_eq!(settle_spell(101, -535, 100, 0, &armored), 105);
    assert_eq!(settle_spell(103, 500, 170, 0, &npc), 0);
}

#[test]
fn formulas_are_for_attack_spells() {
    assert!(use_magic_formula(-1, 1, 399999));
    assert!(use_magic_formula(-1, 8, 100));
    assert!(!use_magic_formula(0, 1, 100));
    assert!(!use_magic_formula(-1, 2, 100));
    assert!(!use_magic_formula(-1, 1, 400000));
    assert_eq!(row_damage(-250), 250);
    assert_eq!(row_damage(250), 0);
}

#[test]
fn npcs_have_their_resistances() {
    let npc = NpcResistances {
        fire_r: 1,
        cold_r: 2,
        lightning_r: 3,
        magic_r: 4,
        disease_r: 5,
        poison_r: 6,
    };
    for attribute in 1..=6u8 {
        assert_eq!(get_npc_target_resistance(&Some(npc), attribute), Some(attribute as i16));
    }
    assert_eq!(get_npc_target_resistance(&Some(npc), 7), None);
    assert_eq!(get_npc_target_resistance(&None, 1), None);
    let at_player = build_player_ctx(30, 104, 120, true, (5, 6), 2);
    assert_eq!(at_player.target_kind, MagicTargetKind::Player);
    assert_eq!((at_player.target_total_r, at_player.target_class), (30, 104));
    assert_eq!((at_player.target_ac_amount, at_player.is_war_zone), (120, true));
    assert_eq!((at_player.righthand_damage, at_player.attribute_damage), (5, 6));
    let at_npc = build_npc_ctx(30, false, (5, 6), 2);
    assert_eq!(at_npc.target_kind, MagicTargetKind::Npc);
    assert_eq!((at_npc.target_class, at_npc.target_ac_amount, at_npc.attribute), (0, 0, 2));
}

/// The spread is drawn: over many rolls it takes different values, all within its bounds.
#[test]
fn spreads_are_drawn() {
    let mut seen = Vec::new();
    for _ in 0..200 {
        let r = roll_magic_spread(-100);
        assert!((-50..=0).contains(&r));
        if !seen.contains(&r) {
            seen.push(r);
        }
    }
    assert!(seen.len() > 5);
    assert_eq!(roll_magic_spread(0), 0);
    assert_eq!(roll_magic_spread(1), 0);
    for _ in 0..50 {
        assert!((0..=50).contains(&roll_magic_spread(100)));
    }
}

#[test]
fn spells_without_a_hit_do_nothing() {
    let ctx = make_test_ctx(MagicTargetKind::Npc);
    let stages = MagicStages { charmed_hit: -80, blended: -300, weapon_part: 20 };
    assert_eq!(compute_magic_damage(110, 0, 0, &stages, &ctx), 0);
    assert_eq!(compute_magic_damage(110, -100, 0, &stages, &ctx), 490);
    let dull = MagicStages { charmed_hit: 0, ..stages };
    assert_eq!(compute_magic_damage(110, -100, 0, &dull, &ctx), 0);
    assert_eq!(compute_magic_damage(112, -100, 0, &dull, &ctx), 420);
    assert_eq!(compute_magic_damage(112, -100, -100, &dull, &ctx), 0);
    let war = MagicDamageContext { is_war_zone: true, ..ctx };
    assert_eq!(compute_magic_damage(110, -100, 0, &stages, &war), 490);
    let pure = MagicDamageContext { attribute: 4, ..ctx };
    assert_eq!(compute_magic_damage(110, -100, 0, &stages, &pure), 470);
    let armed = MagicStages { weapon_part: 900, ..stages };
    assert_eq!(compute_magic_damage(110, -100, 0, &armed, &pure), 470);
}
