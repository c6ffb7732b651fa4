//! Physical skills: whether they hit, and the whole numbers of their damage.
//!
//! Scaling by a percentage and spreading by a fraction of a roll are floating-point steps that
//! callers make between the functions of this module.

use crate::arith::{or_i32, tdiv};
use crate::random::roll;
use crate::skills::{
    class_group, class_group_index, is_armor_scroll_disable_skill, ARMOR_SCROLL_DISABLE_SKILLS,
};
use crate::tables::{MagicType1Row, MagicType2Row};
use vstd::prelude::*;

verus! {

/// How well an attack lands.
#[derive(Clone, Copy, Debug, PartialEq, Eq, Structural)]
pub enum HitResult {
    GreatSuccess,
    Success,
    Normal,
    Fail,
}

/// Ranges of the ratio of accuracy to evasion, by their lower ends.
#[derive(Clone, Copy, Debug, PartialEq, Eq, Structural)]
pub enum HitBand {
    From5,
    From3,
    From2,
    From1_25,
    From0_8,
    From0_5,
    From0_33,
    From0_2,
    Below,
}

/// The highest rolls, of 10000, that are a great success, a success and a normal hit.
pub open spec fn hit_limits(band: HitBand) -> (int, int, int) {
    match band {
        HitBand::From5 => (3500, 7500, 9800),
        HitBand::From3 => (2500, 6000, 9600),
        HitBand::From2 => (2000, 5000, 9400),
        HitBand::From1_25 => (1500, 4000, 9200),
        HitBand::From0_8 => (1000, 3000, 9000),
        HitBand::From0_5 => (800, 2500, 8000),
        HitBand::From0_33 => (600, 2000, 7000),
        HitBand::From0_2 => (400, 1500, 6000),
        HitBand::Below => (200, 1000, 5000),
    }
}

/// The result of a roll of 1 to 10000.
pub open spec fn hit_outcome(band: HitBand, roll: i32) -> HitResult {
    let (great, success, normal) = hit_limits(band);
    if roll <= great {
        HitResult::GreatSuccess
    } else if roll <= success {
        HitResult::Success
    } else if roll <= normal {
        HitResult::Normal
    } else {
        HitResult::Fail
    }
}

/// The result of a given roll.
pub fn hit_result(band: HitBand, roll: i32) -> (r: HitResult)
    ensures
        r == hit_outcome(band, roll),
{
    let (great, success, normal): (i32, i32, i32) = match band {
        HitBand::From5 => (3500, 7500, 9800),
        HitBand::From3 => (2500, 6000, 9600),
        HitBand::From2 => (2000, 5000, 9400),
        HitBand::From1_25 => (1500, 4000, 9200),
        HitBand::From0_8 => (1000, 3000, 9000),
        HitBand::From0_5 => (800, 2500, 8000),
        HitBand::From0_33 => (600, 2000, 7000),
        HitBand::From0_2 => (400, 1500, 6000),
        HitBand::Below => (200, 1000, 5000),
    };
    if roll <= great {
        HitResult::GreatSuccess
    } else if roll <= success {
        HitResult::Success
    } else if roll <= normal {
        HitResult::Normal
    } else {
        HitResult::Fail
    }
}

/// Roll for a hit.
pub fn get_hit_rate(band: HitBand) -> (r: HitResult)
    ensures
        exists|x: i32| 1 <= x <= 10000 && r == #[trigger] hit_outcome(band, x),
{
    let x: i32 = roll(1, 10000);
    hit_result(band, x)
}

/// How a skill finds out whether it hits.
#[derive(Clone, Copy, Debug, PartialEq, Eq, Structural)]
pub enum HitCheck {
    /// Against the skill's own rate in percent.
    Absolute { rate: i32 },
    /// By the ratio of accuracy to evasion.
    Relative { band: HitBand },
}

/// The check that a melee skill makes: relative for hit type 0, absolute for any other.
pub open spec fn type1_check(row: MagicType1Row, band: HitBand) -> HitCheck {
    if or_i32(row.hit_type, 0) != 0 {
        HitCheck::Absolute { rate: or_i32(row.hit_rate, 100) }
    } else {
        HitCheck::Relative { band }
    }
}

/// The check that a melee skill makes.
pub fn type1_hit_check(row: &MagicType1Row, band: HitBand) -> (r: HitCheck)
    ensures
        r == type1_check(*row, band),
{
    if row.hit_type.unwrap_or(0) != 0 {
        HitCheck::Absolute { rate: row.hit_rate.unwrap_or(100) }
    } else {
        HitCheck::Relative { band }
    }
}

/// The check that a ranged skill makes: absolute for hit types 1 and 2, relative otherwise.
pub open spec fn type2_check(row: MagicType2Row, band: HitBand) -> HitCheck {
    let t = or_i32(row.hit_type, 0);
    if t == 1 || t == 2 {
        HitCheck::Absolute { rate: or_i32(row.hit_rate, 100) }
    } else {
        HitCheck::Relative { band }
    }
}

/// The check that a ranged skill makes.
pub fn type2_hit_check(row: &MagicType2Row, band: HitBand) -> (r: HitCheck)
    ensures
        r == type2_check(*row, band),
{
    let hit_type: i32 = row.hit_type.unwrap_or(0);
    if hit_type == 1 || hit_type == 2 {
        HitCheck::Absolute { rate: row.hit_rate.unwrap_or(100) }
    } else {
        HitCheck::Relative { band }
    }
}

/// Whether a ranged skill goes through armor.
pub fn is_penetrating(row: &MagicType2Row) -> (r: bool)
    ensures
        r == (or_i32(row.hit_type, 0) == 1),
        r <==> row.hit_type == Some(1i32),
{
    row.hit_type.unwrap_or(0) == 1
}

/// Whether a roll is one that the check asks for.
pub open spec fn fair_roll(check: HitCheck, roll: i32) -> bool {
    match check {
        HitCheck::Absolute { .. } => 0 <= roll <= 100,
        HitCheck::Relative { .. } => 1 <= roll <= 10000,
    }
}

/// The result of a check for a roll: an absolute check succeeds where the rate exceeds it.
pub open spec fn check_outcome(check: HitCheck, roll: i32) -> HitResult {
    match check {
        HitCheck::Absolute { rate } => if rate <= roll {
            HitResult::Fail
        } else {
            HitResult::Success
        },
        HitCheck::Relative { band } => hit_outcome(band, roll),
    }
}

/// The result of a check for a given roll.
pub fn resolve_hit(check: HitCheck, roll: i32) -> (r: HitResult)
    ensures
        r == check_outcome(check, roll),
{
    match check {
        HitCheck::Absolute { rate } => if rate <= roll {
            HitResult::Fail
        } else {
            HitResult::Success
        },
        HitCheck::Relative { band } => hit_result(band, roll),
    }
}

/// Make a check with a roll of the dice.
pub fn roll_hit(check: HitCheck) -> (r: HitResult)
    ensures
        exists|x: i32| fair_roll(check, x) && r == #[trigger] check_outcome(check, x),
{
    let x: i32 = match check {
        HitCheck::Absolute { .. } => roll(0, 100),
        HitCheck::Relative { .. } => roll(1, 10000),
    };
    assert(fair_roll(check, x));
    resolve_hit(check, x)
}

/// The attack power that a target's armor leaves. Both modifiers are percentages; armor of
/// -240 or less leaves twice the attack power.
pub open spec fn armored_hit(
    total_hit: int,
    target_ac: int,
    attack_amount: int,
    player_attack_amount: int,
) -> int {
    let power = tdiv(total_hit * attack_amount * player_attack_amount, 100);
    if target_ac + 240 > 0 {
        tdiv(power * 2, target_ac + 240)
    } else {
        power * 2
    }
}

/// Whether the attack power can be worked out in 32 bits.
pub open spec fn hit_fits(
    total_hit: int,
    target_ac: int,
    attack_amount: int,
    player_attack_amount: int,
) -> bool {
    &&& i32::MIN <= total_hit * attack_amount <= i32::MAX
    &&& i32::MIN <= total_hit * attack_amount * player_attack_amount <= i32::MAX
    &&& i32::MIN <= tdiv(total_hit * attack_amount * player_attack_amount, 100) * 2 <= i32::MAX
    &&& target_ac + 240 <= i32::MAX
}

/// Work out the attack power that a target's armor leaves.
pub fn base_hit(
    total_hit: u16,
    target_ac: i32,
    attack_amount: i32,
    player_attack_amount: i32,
) -> (r: i32)
    requires
        hit_fits(
            total_hit as int,
            target_ac as int,
            attack_amount as int,
            player_attack_amount as int,
        ),
    ensures
        r == armored_hit(
            total_hit as int,
            target_ac as int,
            attack_amount as int,
            player_attack_amount as int,
        ),
{
    let power: i32 = (total_hit as i32) * attack_amount * player_attack_amount / 100;
    let armor: i32 = target_ac + 240;
    if armor > 0 {
        proof {
            crate::arith::lemma_tdiv_shrinks(power * 2, armor as int);
        }
        (power * 2) / armor
    } else {
        power * 2
    }
}

/// Roll the part of a hit that varies: up to the hit itself, nothing where it is not positive.
pub fn roll_spread(hit: i32) -> (r: i32)
    ensures
        hit > 0 ==> 0 <= r <= hit,
        hit <= 0 ==> r == 0,
{
    if hit > 0 {
        roll(0, hit)
    } else {
        0
    }
}

/// The damage of a hit whose spread has been worked in: at least 1, and 0 for a miss.
pub open spec fn landed_damage(result: HitResult, spread: i32) -> i16 {
    match result {
        HitResult::Fail => 0i16,
        _ => if spread > 1 {
            spread as i16
        } else {
            1i16
        },
    }
}

/// The damage of a hit or miss.
pub fn settle_hit(result: HitResult, spread: i32) -> (r: i16)
    ensures
        r == landed_damage(result, spread),
{
    match result {
        HitResult::Fail => 0,
        _ => spread.max(1) as i16,
    }
}

/// A player's defence against physical skills.
#[derive(Clone, Copy, Debug)]
pub struct Defence {
    pub class: u16,
    pub total_ac: u16,
    pub ac_pct: i32,
    pub ac_amount: i32,
    pub ac_sour: i32,
    pub ac_class_bonus: [u8; 4],
}

/// Armor before the class bonus: the equipment's at its percentage, plus buffs, less sours,
/// never negative. Some skills see no buffs.
pub open spec fn plain_ac(d: Defence, skill_id: u32) -> int {
    let buffs: int = if ARMOR_SCROLL_DISABLE_SKILLS@.contains(skill_id) {
        0
    } else {
        d.ac_amount as int
    };
    let ac = tdiv(d.total_ac * d.ac_pct, 100) + buffs - d.ac_sour;
    if ac > 0 {
        ac
    } else {
        0
    }
}

/// A player's armor against a physical skill.
pub open spec fn skill_ac(d: Defence, skill_id: u32) -> int {
    let ac = plain_ac(d, skill_id);
    match class_group(d.class) {
        Some(i) => tdiv(ac * (100 + d.ac_class_bonus@[i]), 100),
        None => ac,
    }
}

/// Whether a player's armor can be worked out in 32 bits.
pub open spec fn ac_fits(d: Defence) -> bool {
    &&& i32::MIN <= d.total_ac * d.ac_pct <= i32::MAX
    &&& i32::MIN <= tdiv(d.total_ac * d.ac_pct, 100) + d.ac_amount <= i32::MAX
    &&& i32::MIN <= tdiv(d.total_ac * d.ac_pct, 100) - d.ac_sour <= i32::MAX
    &&& i32::MIN <= tdiv(d.total_ac * d.ac_pct, 100) + d.ac_amount - d.ac_sour
    &&& (tdiv(d.total_ac * d.ac_pct, 100) + d.ac_amount - d.ac_sour) * 355 <= i32::MAX
    &&& (tdiv(d.total_ac * d.ac_pct, 100) - d.ac_sour) * 355 <= i32::MAX
}

/// Work out a player's armor against a physical skill.
pub fn compute_pvp_skill_target_ac(d: &Defence, skill_id: u32) -> (r: i32)
    requires
        ac_fits(*d),
    ensures
        r == skill_ac(*d, skill_id),
{
    let buffs: i32 = if is_armor_scroll_disable_skill(skill_id) {
        0
    } else {
        d.ac_amount
    };
    let worn: i32 = (d.total_ac as i32) * d.ac_pct / 100;
    let raw: i32 = worn + buffs - d.ac_sour;
    let ac: i32 = raw.max(0);
    match class_group_index(d.class) {
        Some(i) => {
            let percent: i32 = 100 + d.ac_class_bonus[i] as i32;
            assert(0 <= ac * percent <= ac * 355) by (nonlinear_arith)
                requires
                    0 <= ac,
                    0 <= percent <= 355,
            ;
            ac * percent / 100
        },
        None => ac,
    }
}

/// The place of a band among all bands, from the lowest ratio of accuracy to evasion up.
pub open spec fn band_rank(band: HitBand) -> int {
    match band {
        HitBand::Below => 0,
        HitBand::From0_2 => 1,
        HitBand::From0_33 => 2,
        HitBand::From0_5 => 3,
        HitBand::From0_8 => 4,
        HitBand::From1_25 => 5,
        HitBand::From2 => 6,
        HitBand::From3 => 7,
        HitBand::From5 => 8,
    }
}

/// How good a result is, from a miss up.
pub open spec fn hit_quality(r: HitResult) -> int {
    match r {
        HitResult::Fail => 0,
        HitResult::Normal => 1,
        HitResult::Success => 2,
        HitResult::GreatSuccess => 3,
    }
}

/// The bands are ordered: a higher ratio of accuracy to evasion has higher limits throughout.
pub proof fn law_bands_are_ordered(lower: HitBand, higher: HitBand)
    requires
        band_rank(lower) < band_rank(higher),
    ensures
        hit_limits(lower).0 < hit_limits(higher).0,
        hit_limits(lower).1 < hit_limits(higher).1,
        hit_limits(lower).2 < hit_limits(higher).2,
{
}

/// Better accuracy always helps: for one roll, a higher band never gives a worse result.
pub proof fn law_accuracy_helps(lower: HitBand, higher: HitBand, roll: i32)
    requires
        band_rank(lower) <= band_rank(higher),
    ensures
        hit_quality(hit_outcome(lower, roll)) <= hit_quality(hit_outcome(higher, roll)),
{
}

/// An absolute rate above 100 always hits and one of 0 or less never does.
pub proof fn law_absolute_rates(rate: i32, roll: i32)
    requires
        fair_roll(HitCheck::Absolute { rate }, roll),
    ensures
        rate > 100 ==> check_outcome(HitCheck::Absolute { rate }, roll) != HitResult::Fail,
        rate <= 0 ==> check_outcome(HitCheck::Absolute { rate }, roll) == HitResult::Fail,
{
}

/// More armor never lets more attack power through.
pub proof fn law_armor_protects(
    total_hit: int,
    ac_low: int,
    ac_high: int,
    attack_amount: int,
    player_attack_amount: int,
)
    requires
        total_hit >= 0,
        attack_amount >= 0,
        player_attack_amount >= 0,
        0 <= ac_low <= ac_high,
    ensures
        armored_hit(total_hit, ac_high, attack_amount, player_attack_amount) <= armored_hit(
            total_hit,
            ac_low,
            attack_amount,
            player_attack_amount,
        ),
{
    let product = total_hit * attack_amount * player_attack_amount;
    assert(product >= 0) by (nonlinear_arith)
        requires
            total_hit >= 0,
            attack_amount >= 0,
            player_attack_amount >= 0,
            product == total_hit * attack_amount * player_attack_amount,
    ;
    let power = tdiv(product, 100);
    vstd::arithmetic::div_mod::lemma_div_is_ordered_by_denominator(
        power * 2,
        ac_low + 240,
        ac_high + 240,
    );
}

/// A larger percentage modifier never means less attack power.
pub proof fn law_attack_buffs_help(
    total_hit: int,
    target_ac: int,
    amount_low: int,
    amount_high: int,
    player_attack_amount: int,
)
    requires
        total_hit >= 0,
        target_ac >= 0,
        0 <= amount_low <= amount_high,
        player_attack_amount >= 0,
    ensures
        armored_hit(total_hit, target_ac, amount_low, player_attack_amount) <= armored_hit(
            total_hit,
            target_ac,
            amount_high,
            player_attack_amount,
        ),
{
    let low = total_hit * amount_low * player_attack_amount;
    let high = total_hit * amount_high * player_attack_amount;
    assert(0 <= low <= high) by (nonlinear_arith)
        requires
            total_hit >= 0,
            0 <= amount_low <= amount_high,
            player_attack_amount >= 0,
            low == total_hit * amount_low * player_attack_amount,
            high == total_hit * amount_high * player_attack_amount,
    ;
    crate::arith::lemma_tdiv_monotone(low, high, 100);
    crate::arith::lemma_tdiv_monotone(tdiv(low, 100) * 2, tdiv(high, 100) * 2, target_ac + 240);
}

/// A hit does damage and a miss does none, as long as the spread fits in 16 bits.
pub proof fn law_hits_do_damage(result: HitResult, spread: i32)
    requires
        spread <= i16::MAX,
    ensures
        (landed_damage(result, spread) > 0) == (result != HitResult::Fail),
{
}

/// How many of 10000 rolls hit at all, and how well, for each band: a great success up to the
/// first number, a success up to the second, a normal hit up to the third, and a miss above.
pub open spec fn hits_up_to(band: HitBand, great: int, success: int, normal: int) -> bool {
    forall|roll: i32|
        {
            let r = #[trigger] hit_outcome(band, roll);
            &&& r is GreatSuccess <==> roll <= great
            &&& r is Success <==> great < roll <= success
            &&& r is Normal <==> success < roll <= normal
            &&& r is Fail <==> normal < roll
        }
}

/// The odds of a hit. The highest band misses 2 times in 100, each of the four below it 2 times
/// more, and each further one 10 times more, down to every second time.
pub proof fn law_hits_have_their_odds()
    ensures
        hits_up_to(HitBand::From5, 3500, 7500, 9800),
        hits_up_to(HitBand::From3, 2500, 6000, 9600),
        hits_up_to(HitBand::From2, 2000, 5000, 9400),
        hits_up_to(HitBand::From1_25, 1500, 4000, 9200),
        hits_up_to(HitBand::From0_8, 1000, 3000, 9000),
        hits_up_to(HitBand::From0_5, 800, 2500, 8000),
        hits_up_to(HitBand::From0_33, 600, 2000, 7000),
        hits_up_to(HitBand::From0_2, 400, 1500, 6000),
        hits_up_to(HitBand::Below, 200, 1000, 5000),
{
}

/// Which check a skill makes. Melee skills go by the ratio for hit type 0 or none, ranged ones
/// for all but 1 and 2; otherwise by the row's own rate, or 100 where it has none, which must
/// be above the roll.
pub proof fn law_skills_make_their_check(
    melee: MagicType1Row,
    ranged: MagicType2Row,
    band: HitBand,
    rate: i32,
    roll: i32,
)
    ensures
        type1_check(melee, band) is Relative <==> melee.hit_type is None || melee.hit_type == Some(
            0i32,
        ),
        type2_check(ranged, band) is Absolute <==> ranged.hit_type == Some(1i32) || ranged.hit_type
            == Some(2i32),
        type1_check(melee, band) matches HitCheck::Absolute { rate: r } ==> match melee.hit_rate {
            Some(own) => r == own,
            None => r == 100,
        },
        type2_check(ranged, band) matches HitCheck::Absolute { rate: r } ==> match ranged.hit_rate {
            Some(own) => r == own,
            None => r == 100,
        },
        type1_check(melee, band) matches HitCheck::Relative { band: b } ==> b == band,
        type2_check(ranged, band) matches HitCheck::Relative { band: b } ==> b == band,
        check_outcome(HitCheck::Absolute { rate }, roll) is Success <==> roll < rate,
        check_outcome(HitCheck::Absolute { rate }, roll) is Fail <==> roll >= rate,
        check_outcome(HitCheck::Relative { band }, roll) == hit_outcome(band, roll),
        fair_roll(HitCheck::Absolute { rate }, roll) <==> 0 <= roll <= 100,
        fair_roll(HitCheck::Relative { band }, roll) <==> 1 <= roll <= 10000,
{
}

/// What armor leaves of a hit: twice the attack power over the armor and 240, rounded down,
/// where that is positive, and all of twice the power otherwise. The power is a hundredth of
/// the hit times both percentages.
pub proof fn law_armor_has_its_weight(
    total_hit: int,
    target_ac: int,
    attack_amount: int,
    player_attack_amount: int,
)
    requires
        total_hit >= 0,
        attack_amount >= 0,
        player_attack_amount >= 0,
    ensures
        ({
            let power = total_hit * attack_amount * player_attack_amount / 100;
            let r = armored_hit(total_hit, target_ac, attack_amount, player_attack_amount);
            &&& target_ac > -240 ==> r * (target_ac + 240) <= 2 * power < (r + 1) * (target_ac
                + 240)
            &&& target_ac <= -240 ==> r == 2 * power
        }),
{
    assert(total_hit * attack_amount >= 0) by (nonlinear_arith)
        requires
            total_hit >= 0,
            attack_amount >= 0,
    ;
    let product = total_hit * attack_amount * player_attack_amount;
    assert(product >= 0) by (nonlinear_arith)
        requires
            total_hit * attack_amount >= 0,
            player_attack_amount >= 0,
            product == (total_hit * attack_amount) * player_attack_amount,
    ;
    let power = product / 100;
    if target_ac > -240 {
        let d = target_ac + 240;
        vstd::arithmetic::div_mod::lemma_fundamental_div_mod(power * 2, d);
        vstd::arithmetic::div_mod::lemma_mod_bound(power * 2, d);
        let q = (power * 2) / d;
        assert(d * q == q * d) by (nonlinear_arith);
        assert((q + 1) * d == q * d + d) by (nonlinear_arith);
    }
}

/// A hit does the damage that its spread comes to, at least 1; a miss does none.
pub proof fn law_hits_do_their_damage(result: HitResult, spread: i32)
    ensures
        result is Fail ==> landed_damage(result, spread) == 0,
        !(result is Fail) && 1 <= spread <= 32767 ==> landed_damage(result, spread) == spread,
        !(result is Fail) && spread <= 0 ==> landed_damage(result, spread) == 1,
{
}

/// A player's armor: the equipment's hundredths by its percentage, raised by buffs and lowered
/// by sours point for point, and never below nothing. Stabs of rogues do not see the buffs. A
/// class of set items raises it by its own percentage, and no other entry counts.
pub proof fn law_armor_adds_up(d: Defence, skill_id: u32)
    requires
        d.ac_pct >= 0,
    ensures
        ({
            let worn = d.total_ac * d.ac_pct / 100;
            let seen = if ARMOR_SCROLL_DISABLE_SKILLS@.contains(skill_id) {
                0
            } else {
                d.ac_amount as int
            };
            let sum = worn + seen - d.ac_sour;
            let plain = plain_ac(d, skill_id);
            let job = d.class % 100;
            let armor = skill_ac(d, skill_id);
            &&& sum >= 0 ==> plain == sum
            &&& sum <= 0 ==> plain == 0
            &&& job == 1 || job == 5 || job == 6 ==> raised_by(armor, plain, d.ac_class_bonus@[0])
            &&& job == 2 || job == 7 || job == 8 ==> raised_by(armor, plain, d.ac_class_bonus@[1])
            &&& job == 3 || job == 9 || job == 10 ==> raised_by(armor, plain, d.ac_class_bonus@[2])
            &&& job == 4 || job == 11 || job == 12 ==> raised_by(
                armor,
                plain,
                d.ac_class_bonus@[3],
            )
            &&& job == 0 || job >= 13 ==> armor == plain
        }),
{
    assert(d.total_ac * d.ac_pct >= 0) by (nonlinear_arith)
        requires
            d.total_ac >= 0,
            d.ac_pct >= 0,
    ;
    let plain = plain_ac(d, skill_id);
    assert forall|i: int| 0 <= i < 4 implies plain * (100 + #[trigger] d.ac_class_bonus@[i]) >= 0
        && plain * (100 + d.ac_class_bonus@[i]) == 100 * plain + plain * d.ac_class_bonus@[i] by {
        let p = d.ac_class_bonus@[i] as int;
        assert(plain * (100 + p) >= 0) by (nonlinear_arith)
            requires
                plain >= 0,
                p >= 0,
        ;
        assert(plain * (100 + p) == 100 * plain + plain * p) by (nonlinear_arith);
    }
}

/// Whether a number is another one raised by a percentage, rounded down.
pub open spec fn raised_by(raised: int, plain: int, percent: u8) -> bool {
    100 * (raised - plain) <= plain * percent < 100 * (raised - plain) + 100
}

} // verus!
