//! Damage of physical skills. The floating-point steps between the library's stages are made
//! here, as a server makes them.

use ko_game::hit::{
    Defence, HitBand, HitCheck, HitResult, base_hit, compute_pvp_skill_target_ac, get_hit_rate,
    hit_result, is_penetrating, resolve_hit, roll_hit, roll_spread, settle_hit, type1_hit_check,
    type2_hit_check,
};
use ko_game::tables::{MagicType1Row, MagicType2Row};
use rand::rngs::StdRng;
use rand::{Rng, SeedableRng};

/// The range that a ratio of accuracy to evasion falls into.
fn band_of(rate: f32) -> HitBand {
    if rate >= 5.0 {
        HitBand::From5
    } else if rate >= 3.0 {
        HitBand::From3
    } else if rate >= 2.0 {
        HitBand::From2
    } else if rate >= 1.25 {
        HitBand::From1_25
    } else if rate >= 0.8 {
        HitBand::From0_8
    } else if rate >= 0.5 {
        HitBand::From0_5
    } else if rate >= 0.33 {
        HitBand::From0_33
    } else if rate >= 0.2 {
        HitBand::From0_2
    } else {
        HitBand::Below
    }
}

fn relative_band(hitrate: f32, evasion: f32, rate: i32) -> HitBand {
    if evasion > 0.0 {
        band_of((hitrate / evasion) * (rate as f32 / 100.0))
    } else {
        band_of(hitrate * (rate as f32 / 100.0))
    }
}

fn resolve(check: HitCheck, rng: &mut StdRng) -> HitResult {
    let roll = match check {
        HitCheck::Absolute { .. } => rng.gen_range(0..=100),
        HitCheck::Relative { .. } => rng.gen_range(1..=10000),
    };
    resolve_hit(check, roll)
}

fn drawn(hit: i32, rng: &mut StdRng) -> i32 {
    if hit > 0 {
        rng.gen_range(0..=hit)
    } else {
        0
    }
}

fn compute_type1_hit_damage(
    total_hit: u16,
    target_ac: i32,
    row: &MagicType1Row,
    hitrate: f32,
    evasion: f32,
    attack_amount: i32,
    player_attack_amount: i32,
    rng: &mut StdRng,
) -> i16 {
    let base = base_hit(total_hit, target_ac, attack_amount, player_attack_amount);
    let hit = (base as f32 * (row.hit.unwrap_or(100) as f32 / 100.0)) as i32;
    let band = relative_band(hitrate, evasion, row.hit_rate.unwrap_or(100));
    let result = resolve(type1_hit_check(row, band), rng);
    if result == HitResult::Fail {
        return settle_hit(result, 0);
    }
    let random = drawn(hit, rng);
    settle_hit(result, (hit as f32 + 0.3 * random as f32 + 0.99) as i32)
}

fn compute_type2_hit_damage(
    total_hit: u16,
    target_ac: i32,
    row: &MagicType2Row,
    hitrate: f32,
    evasion: f32,
    attack_amount: i32,
    player_attack_amount: i32,
    rng: &mut StdRng,
) -> i16 {
    let percent = row.add_damage.unwrap_or(100) as f32 / 100.0;
    let hit = if is_penetrating(row) {
        (total_hit as f32 * attack_amount as f32 * percent / 100.0) as i32
    } else {
        let base = base_hit(total_hit, target_ac, attack_amount, player_attack_amount);
        (base as f32 * percent) as i32
    };
    let band = relative_band(hitrate, evasion, row.hit_rate.unwrap_or(100));
    let result = resolve(type2_hit_check(row, band), rng);
    if result == HitResult::Fail {
        return settle_hit(result, 0);
    }
    let random = drawn(hit, rng);
    settle_hit(result, (hit as f32 * 0.6 + 1.0 * random as f32 + 0.99) as i32)
}

fn make_type1_data(s_hit: i32, hit_type: i32, hit_rate: i32, add_damage: i32) -> MagicType1Row {
    MagicType1Row {
        i_num: 100000,
        hit_type: Some(hit_type),
        hit_rate: Some(hit_rate),
        hit: Some(s_hit),
        add_damage: Some(add_damage),
        add_dmg_perc_to_user: None,
        add_dmg_perc_to_npc: None,
    }
}

fn make_type2_data(hit_type: i32, hit_rate: i32, add_damage: i32) -> MagicType2Row {
    MagicType2Row {
        i_num: 200000,
        hit_type: Some(hit_type),
        hit_rate: Some(hit_rate),
        add_damage: Some(add_damage),
        need_arrow: None,
        add_dmg_perc_to_user: None,
        add_dmg_perc_to_npc: None,
    }
}

/// The damage of as many melee hits as asked for, each from its own seed.
fn type1_total(row: &MagicType1Row, ac: i32, amount: i32, pvp: i32, seeds: u64) -> i64 {
    let mut total = 0i64;
    for seed in 0u64..seeds {
        let mut rng = StdRng::seed_from_u64(seed);
        total +=
            compute_type1_hit_damage(100, ac, row, 100.0, 1.0, amount, pvp, &mut rng) as i64;
    }
    total
}

/// The damage of as many shots as asked for, each from its own seed.
fn type2_total(row: &MagicType2Row, ac: i32, amount: i32, pvp: i32, seeds: u64) -> i64 {
    let mut total = 0i64;
    for seed in 0u64..seeds {
        let mut rng = StdRng::seed_from_u64(seed);
        total +=
            compute_type2_hit_damage(100, ac, row, 100.0, 1.0, amount, pvp, &mut rng) as i64;
    }
    total
}

#[test]
fn test_hit_rate_high() {
    let mut rng = StdRng::seed_from_u64(42);
    let mut fails = 0;
    for _ in 0..1000 {
        if hit_result(band_of(10.0), rng.gen_range(1..=10000)) == HitResult::Fail {
            fails += 1;
        }
    }
    assert!(fails < 50, "Expected < 50 fails at rate=10.0, got {}", fails);
}

#[test]
fn test_type1_s_hit_modifier_applied() {
    let total_100 = type1_total(&make_type1_data(100, 0, 100, 0), 50, 100, 100, 200);
    let total_150 = type1_total(&make_type1_data(150, 0, 100, 0), 50, 100, 100, 200);
    assert!(
        total_150 > total_100,
        "sHit=150 should produce more damage than sHit=100: 150={}, 100={}",
        total_150,
        total_100
    );
}

#[test]
fn test_type1_formula_not_r_attack() {
    let total_type1 = type1_total(&make_type1_data(100, 0, 100, 0), 50, 100, 100, 500);
    assert!(total_type1 > 0, "Type1 damage total should be positive: {}", total_type1);
}

#[test]
fn test_type1_non_relative_hit_check() {
    let target_ac = 50;
    let type1_always_hit = make_type1_data(100, 1, 100, 0);
    let type1_always_miss = make_type1_data(100, 1, 0, 0);

    let mut hits = 0;
    let mut misses = 0;
    for seed in 0u64..200 {
        let mut rng = StdRng::seed_from_u64(seed);
        if compute_type1_hit_damage(
            100, target_ac, &type1_always_hit, 1.0, 100.0, 100, 100, &mut rng,
        ) > 0
        {
            hits += 1;
        }
        let mut rng = StdRng::seed_from_u64(seed);
        if compute_type1_hit_damage(
            100, target_ac, &type1_always_miss, 1.0, 100.0, 100, 100, &mut rng,
        ) > 0
        {
            misses += 1;
        }
    }
    assert!(hits > 150, "sHitRate=100 should hit most of the time: hits={}", hits);
    assert_eq!(misses, 0, "sHitRate=0 should always miss");
}

#[test]
fn test_type2_add_damage_is_percentage() {
    let total_100 = type2_total(&make_type2_data(0, 100, 100), 50, 100, 100, 200);
    let total_200 = type2_total(&make_type2_data(0, 100, 200), 50, 100, 100, 200);
    assert!(
        total_200 > total_100,
        "sAddDamage=200 should deal more than 100: 200={}, 100={}",
        total_200,
        total_100
    );
}

#[test]
fn test_type2_penetration_bypasses_ac() {
    let type2_pen = make_type2_data(1, 100, 200);
    let total_low_ac = type2_total(&type2_pen, 10, 100, 100, 200);
    let total_high_ac = type2_total(&type2_pen, 500, 100, 100, 200);
    assert_eq!(
        total_low_ac, total_high_ac,
        "Penetration should ignore AC: low_ac={}, high_ac={}",
        total_low_ac, total_high_ac
    );
}

#[test]
fn test_type2_normal_uses_ac() {
    let type2_normal = make_type2_data(0, 100, 200);
    let total_low_ac = type2_total(&type2_normal, 10, 100, 100, 200);
    let total_high_ac = type2_total(&type2_normal, 500, 100, 100, 200);
    assert!(
        total_low_ac > total_high_ac,
        "Higher AC should reduce damage: low_ac={}, high_ac={}",
        total_low_ac,
        total_high_ac
    );
}

#[test]
fn test_type2_randomization_formula() {
    let type2_data = make_type2_data(0, 100, 200);
    let mut total = 0i64;
    let mut count = 0;
    for seed in 0u64..500 {
        let mut rng = StdRng::seed_from_u64(seed);
        let dmg =
            compute_type2_hit_damage(100, 50, &type2_data, 100.0, 1.0, 100, 100, &mut rng);
        if dmg > 0 {
            total += dmg as i64;
            count += 1;
        }
    }
    assert!(count > 0, "Should have some successful hits");
    assert!(total > 0, "Type2 total damage should be positive: {}", total);
}

#[test]
fn test_type2_penetration_hit_check() {
    let type2_miss = make_type2_data(1, 0, 200);
    let mut hits = 0;
    for seed in 0u64..200 {
        let mut rng = StdRng::seed_from_u64(seed);
        if compute_type2_hit_damage(100, 50, &type2_miss, 1.0, 100.0, 100, 100, &mut rng) > 0 {
            hits += 1;
        }
    }
    assert_eq!(hits, 0, "sHitRate=0 penetration should always miss");
}

#[test]
fn test_type1_attack_amount_buff_increases_damage() {
    let type1_data = make_type1_data(100, 0, 100, 0);
    let total_100 = type1_total(&type1_data, 50, 100, 100, 200);
    let total_130 = type1_total(&type1_data, 50, 130, 100, 200);
    assert!(
        total_130 > total_100,
        "attack_amount=130 should deal more than 100: 130={}, 100={}",
        total_130,
        total_100
    );
}

#[test]
fn test_type2_attack_amount_buff_increases_damage() {
    let type2_data = make_type2_data(0, 100, 150);
    let total_100 = type2_total(&type2_data, 50, 100, 100, 200);
    let total_130 = type2_total(&type2_data, 50, 130, 100, 200);
    assert!(
        total_130 > total_100,
        "attack_amount=130 should deal more than 100: 130={}, 100={}",
        total_130,
        total_100
    );
}

#[test]
fn test_type2_penetration_with_attack_amount_buff() {
    let type2_pen = make_type2_data(1, 100, 200);
    let total_100 = type2_total(&type2_pen, 50, 100, 100, 200);
    let total_150 = type2_total(&type2_pen, 50, 150, 100, 200);
    assert!(
        total_150 > total_100,
        "Penetration with attack_amount=150 should deal more: 150={}, 100={}",
        total_150,
        total_100
    );
}

#[test]
fn test_attack_amount_default_produces_baseline() {
    let type1_data = make_type1_data(100, 0, 100, 0);
    let total_default = type1_total(&type1_data, 50, 100, 100, 200);
    let total_zero = type1_total(&type1_data, 50, 50, 100, 200);
    assert!(
        total_default > total_zero,
        "attack_amount=100 should deal more than 50: 100={}, 50={}",
        total_default,
        total_zero
    );
}

#[test]
fn test_type1_player_attack_amount_increases_pvp_damage() {
    let type1_data = make_type1_data(100, 0, 100, 0);
    let total_100 = type1_total(&type1_data, 50, 100, 100, 200);
    let total_150 = type1_total(&type1_data, 50, 100, 150, 200);
    assert!(
        total_150 > total_100,
        "player_attack_amount=150 should deal more: 150={}, 100={}",
        total_150,
        total_100
    );
}

#[test]
fn test_type1_player_attack_amount_100_no_change() {
    let type1_data = make_type1_data(100, 0, 100, 0);
    for seed in 0u64..50 {
        let mut rng1 = StdRng::seed_from_u64(seed);
        let d1 =
            compute_type1_hit_damage(100, 50, &type1_data, 100.0, 1.0, 100, 100, &mut rng1);
        let mut rng2 = StdRng::seed_from_u64(seed);
        let d2 =
            compute_type1_hit_damage(100, 50, &type1_data, 100.0, 1.0, 100, 100, &mut rng2);
        assert_eq!(d1, d2, "player_attack_amount=100 should not change damage");
    }
}

#[test]
fn test_type2_player_attack_amount_normal() {
    let type2_data = make_type2_data(0, 100, 150);
    let total_100 = type2_total(&type2_data, 50, 100, 100, 200);
    let total_150 = type2_total(&type2_data, 50, 100, 150, 200);
    assert!(
        total_150 > total_100,
        "Type2 player_attack_amount=150 should deal more: 150={}, 100={}",
        total_150,
        total_100
    );
}

#[test]
fn test_type2_penetration_ignores_player_attack_amount() {
    let type2_pen = make_type2_data(1, 100, 200);
    let total_100 = type2_total(&type2_pen, 50, 100, 100, 200);
    let total_200 = type2_total(&type2_pen, 50, 100, 200, 200);
    assert_eq!(
        total_100, total_200,
        "Penetration should ignore player_attack_amount: 100={}, 200={}",
        total_100, total_200
    );
}

#[test]
fn rolls_are_judged_by_their_band() {
    let bands = [
        (HitBand::From5, 3500, 7500, 9800),
        (HitBand::From3, 2500, 6000, 9600),
        (HitBand::From2, 2000, 5000, 9400),
        (HitBand::From1_25, 1500, 4000, 9200),
        (HitBand::From0_8, 1000, 3000, 9000),
        (HitBand::From0_5, 800, 2500, 8000),
        (HitBand::From0_33, 600, 2000, 7000),
        (HitBand::From0_2, 400, 1500, 6000),
        (HitBand::Below, 200, 1000, 5000),
    ];
    for (band, great, success, normal) in bands {
        assert_eq!(hit_result(band, great), HitResult::GreatSuccess);
        assert_eq!(hit_result(band, great + 1), HitResult::Success);
        assert_eq!(hit_result(band, success + 1), HitResult::Normal);
        assert_eq!(hit_result(band, normal), HitResult::Normal);
        assert_eq!(hit_result(band, normal + 1), HitResult::Fail);
    }
}

#[test]
fn absolute_rates_are_rolled_out_of_a_hundred() {
    let check = HitCheck::Absolute { rate: 60 };
    assert_eq!(resolve_hit(check, 59), HitResult::Success);
    assert_eq!(resolve_hit(check, 60), HitResult::Fail);
    let row = make_type1_data(100, 1, 60, 0);
    assert_eq!(type1_hit_check(&row, HitBand::Below), check);
    let row = make_type1_data(100, 0, 60, 0);
    assert_eq!(
        type1_hit_check(&row, HitBand::From2),
        HitCheck::Relative { band: HitBand::From2 }
    );
    assert_eq!(type2_hit_check(&make_type2_data(2, 60, 0), HitBand::From2), check);
    assert!(!is_penetrating(&make_type2_data(2, 60, 0)));
    assert!(is_penetrating(&make_type2_data(1, 60, 0)));
}

#[test]
fn base_hits_have_exact_values() {
    // 100 * 100 * 100 / 100 = 10000 twice, over 50 + 240
    assert_eq!(base_hit(100, 50, 100, 100), 68);
    assert_eq!(base_hit(100, 50, 130, 150), 134);
    assert_eq!(base_hit(100, -240, 100, 100), 20000);
    assert_eq!(settle_hit(HitResult::Fail, 500), 0);
    assert_eq!(settle_hit(HitResult::Normal, 0), 1);
    assert_eq!(settle_hit(HitResult::GreatSuccess, 500), 500);
}

/// Whether an attack hits is drawn: the great successes of many rolls come close to their
/// share, and so do the misses.
#[test]
fn hits_are_drawn() {
    let mut great = 0;
    let mut fails = 0;
    for _ in 0..4000 {
        match get_hit_rate(HitBand::Below) {
            HitResult::GreatSuccess => great += 1,
            HitResult::Fail => fails += 1,
            _ => {}
        }
    }
    assert!(great < 400, "2 percent are great successes: {}", great);
    assert!((1600..2400).contains(&fails), "half of them miss: {}", fails);
    let mut hits = 0;
    for _ in 0..1000 {
        if roll_hit(HitCheck::Absolute { rate: 50 }) == HitResult::Success {
            hits += 1;
        }
    }
    assert!((350..650).contains(&hits), "half of them hit: {}", hits);
    let mut seen = Vec::new();
    for _ in 0..200 {
        let r = roll_spread(60);
        assert!((0..=60).contains(&r));
        if !seen.contains(&r) {
            seen.push(r);
        }
    }
    assert!(seen.len() > 5);
    assert_eq!(roll_spread(0), 0);
    assert_eq!(roll_spread(-5), 0);
}

#[test]
fn armor_is_worked_out_against_skills() {
    let d = Defence {
        class: 101,
        total_ac: 200,
        ac_pct: 100,
        ac_amount: 50,
        ac_sour: 30,
        ac_class_bonus: [0; 4],
    };
    assert_eq!(compute_pvp_skill_target_ac(&d, 100000), 220);
    assert_eq!(compute_pvp_skill_target_ac(&d, 107640), 170);
    let trained = Defence { ac_class_bonus: [10, 0, 0, 0], ..d };
    assert_eq!(compute_pvp_skill_target_ac(&trained, 100000), 242);
    let bare = Defence { ac_sour: 1000, ..d };
    assert_eq!(compute_pvp_skill_target_ac(&bare, 100000), 0);
}
