//! What a skill's damage does to a player: protections, reflections and what is left of them.

use crate::arith::{max_of, min_of, tdiv};
use crate::constants::{
    AUTHORITY_GM, FIRE_DAMAGE, GM_FIXED_DAMAGE, ICE_DAMAGE, ITEM_TYPE_MIRROR_DAMAGE,
    LIGHTNING_DAMAGE, MAGIC_EFFECTING, NATION_KARUS, ZONE_BDW, ZONE_CHAOS_DUNGEON, ZONE_JURAID,
    ZONE_KNIGHT_ROYALE,
};
use crate::instance::MagicInstance;
use crate::spell::{apply_magic_damage_reduction, reduced_damage};
use crate::tables::MagicRow;
use vstd::prelude::*;

verus! {

/// Whether a skill is a spell by either of its types.
pub open spec fn is_spell(skill: Option<MagicRow>) -> bool {
    match skill {
        Some(s) => s.type1 == Some(3i16) || s.type2 == Some(3i16),
        None => false,
    }
}

/// Damage after the game master's override: a fixed amount, for skills other than spells.
pub open spec fn overridden(caster_authority: Option<u8>, skill: Option<MagicRow>, damage: i16) -> i16 {
    if !is_spell(skill) && caster_authority == Some(AUTHORITY_GM) {
        GM_FIXED_DAMAGE
    } else {
        damage
    }
}

/// Apply the game master's override. A caster who has left has no authority.
pub fn gm_fixed_skill_damage(
    caster_authority: Option<u8>,
    skill: &Option<MagicRow>,
    damage: i16,
) -> (r: i16)
    ensures
        r == overridden(caster_authority, *skill, damage),
{
    let spell: bool = match skill {
        Some(s) => (match s.type1 {
            Some(t) => t == 3,
            None => false,
        }) || (match s.type2 {
            Some(t) => t == 3,
            None => false,
        }),
        None => false,
    };
    if spell {
        return damage;
    }
    match caster_authority {
        Some(a) => if a == AUTHORITY_GM {
            GM_FIXED_DAMAGE
        } else {
            damage
        },
        None => damage,
    }
}

/// A player about to take damage.
#[derive(Clone, Copy, Debug)]
pub struct Victim {
    pub hp: i16,
    pub mp: i16,
    pub max_mp: i16,
    pub authority: u8,
    pub mastered: bool,
    pub master_points: u8,
    pub zone_id: u16,
    pub in_party: bool,
    /// Percentage of magic damage that is taken.
    pub magic_damage_reduction: u8,
    /// Whether part of the damage is mirrored, and whether to the attacker alone.
    pub mirror_damage: bool,
    pub mirror_damage_type: bool,
    pub mirror_amount: u8,
    /// Percentage of damage that turns into mana; at 15 percent only for `absorb_count` hits.
    pub mana_absorb: u8,
    pub absorb_count: u8,
}

/// Zones in which mirrors, masteries and mana shields do not work.
pub open spec fn unprotected_zone(zone_id: u16) -> bool {
    zone_id == ZONE_CHAOS_DUNGEON || zone_id == ZONE_KNIGHT_ROYALE
}

/// The part of the damage that is mirrored.
pub open spec fn mirrored(v: Victim, reduced: int) -> int {
    if !unprotected_zone(v.zone_id) && v.mirror_damage {
        tdiv(v.mirror_amount * reduced, 100)
    } else {
        0
    }
}

/// Damage after the passive skills of mastered classes.
pub open spec fn mastery_damage(v: Victim, damage: int) -> int {
    if unprotected_zone(v.zone_id) || !v.mastered {
        damage
    } else if v.master_points >= 10 {
        tdiv(85 * damage, 100)
    } else if v.master_points >= 5 {
        tdiv(90 * damage, 100)
    } else {
        damage
    }
}

/// Whether part of the damage turns into mana.
pub open spec fn absorbs(v: Victim) -> bool {
    v.mana_absorb > 0 && !unprotected_zone(v.zone_id) && (v.mana_absorb == 15 ==> v.absorb_count
        > 0)
}

/// The part of the damage that turns into mana, in its low 16 bits. It is a part of the damage
/// before mirrors.
pub open spec fn absorbed(v: Victim, reduced: int) -> int {
    if absorbs(v) {
        tdiv(reduced * v.mana_absorb, 100) as i16 as int
    } else {
        0
    }
}

/// What is left of the damage after all protections.
pub open spec fn protected_damage(v: Victim, damage: i16) -> int {
    let reduced = reduced_damage(damage, v.magic_damage_reduction) as int;
    let unmirrored = max_of(reduced - mirrored(v, reduced), 0);
    max_of(mastery_damage(v, unmirrored) - absorbed(v, reduced), 0)
}

/// Whether what is left of the damage fits in 16 bits, as it does for mana shields of up to a
/// hundred percent. Game masters take none.
pub open spec fn parts_fit(v: Victim, damage: i16) -> bool {
    damage > 0 && v.authority != AUTHORITY_GM ==> protected_damage(v, damage) <= i16::MAX
}

/// Work out what is left of the damage after all protections.
pub fn protect(v: &Victim, damage: i16) -> (r: i32)
    requires
        damage > 0,
    ensures
        r == protected_damage(*v, damage),
{
    let protected: bool = !(v.zone_id == ZONE_CHAOS_DUNGEON || v.zone_id == ZONE_KNIGHT_ROYALE);
    let reduced: i16 = apply_magic_damage_reduction(damage, v.magic_damage_reduction);
    proof {
        crate::spell::law_reduction_never_adds(damage, v.magic_damage_reduction);
    }
    assert(0 <= v.mirror_amount * reduced <= 255 * 32767) by (nonlinear_arith)
        requires
            0 <= v.mirror_amount <= 255,
            0 <= reduced <= 32767,
    ;
    assert(0 <= reduced * v.mana_absorb <= 255 * 32767) by (nonlinear_arith)
        requires
            0 <= v.mana_absorb <= 255,
            0 <= reduced <= 32767,
    ;
    let part: i32 = if protected && v.mirror_damage {
        (v.mirror_amount as i32 * reduced as i32) / 100
    } else {
        0
    };
    let mut left: i32 = (reduced as i32 - part).max(0);
    if protected && v.mastered {
        if v.master_points >= 10 {
            left = 85 * left / 100;
        } else if v.master_points >= 5 {
            left = 90 * left / 100;
        }
    }
    if v.mana_absorb > 0 && protected && (v.mana_absorb != 15 || v.absorb_count > 0) {
        let share: i16 = (reduced as i32 * v.mana_absorb as i32 / 100) as i16;
        left = (left - share as i32).max(0);
    }
    left
}

/// Where the mirrored part goes.
#[derive(Clone, Copy, Debug, PartialEq, Eq, Structural)]
pub enum Mirror {
    Nowhere,
    Attacker { damage: i16 },
    AttackerParty { damage: i32 },
}

/// What damage does to a player.
#[derive(Clone, Copy, Debug, PartialEq, Eq, Structural)]
pub struct Wound {
    /// The damage before protections.
    pub dealt: i16,
    pub damage: i16,
    pub hp: i16,
    pub mp: i16,
    pub absorb_count: u8,
    pub mirror: Mirror,
    pub dies: bool,
}

/// The outcome of a skill that a player is hit by.
#[derive(Clone, Copy, Debug, PartialEq, Eq, Structural)]
pub enum SkillDamage {
    /// The effect is shown and nothing happens.
    Shown,
    Dealt(Wound),
}

/// What damage does to a player.
pub open spec fn wound(
    caster_authority: Option<u8>,
    skill: Option<MagicRow>,
    v: Victim,
    damage: i16,
) -> Wound {
    let reduced = reduced_damage(damage, v.magic_damage_reduction) as int;
    let taken = overridden(caster_authority, skill, protected_damage(v, damage) as i16);
    let hp = max_of(v.hp - taken, 0) as i16;
    let part = mirrored(v, reduced) as i32;
    Wound {
        dealt: damage,
        damage: taken,
        hp,
        mp: if absorbs(v) {
            min_of(v.mp + absorbed(v, reduced), v.max_mp as int) as i16
        } else {
            v.mp
        },
        absorb_count: if absorbs(v) && v.mana_absorb == 15 {
            (v.absorb_count - 1) as u8
        } else {
            v.absorb_count
        },
        mirror: if part <= 0 {
            Mirror::Nowhere
        } else if v.mirror_damage_type {
            Mirror::Attacker { damage: part as i16 }
        } else if v.in_party {
            Mirror::AttackerParty { damage: part }
        } else {
            Mirror::Nowhere
        },
        dies: hp <= 0,
    }
}

/// What a skill's damage does to a player. Without damage, and to game masters, nothing
/// happens.
pub open spec fn skill_damage(
    caster_authority: Option<u8>,
    skill: Option<MagicRow>,
    v: Victim,
    damage: i16,
) -> SkillDamage {
    let dealt = overridden(caster_authority, skill, damage);
    if dealt <= 0 || v.authority == AUTHORITY_GM {
        SkillDamage::Shown
    } else {
        SkillDamage::Dealt(wound(caster_authority, skill, v, dealt))
    }
}

/// Work out what a skill's damage does to a player.
pub fn apply_skill_damage(
    caster_authority: Option<u8>,
    skill: &Option<MagicRow>,
    v: &Victim,
    damage: i16,
) -> (r: SkillDamage)
    requires
        parts_fit(*v, overridden(caster_authority, *skill, damage)),
    ensures
        r == skill_damage(caster_authority, *skill, *v, damage),
{
    let dealt: i16 = gm_fixed_skill_damage(caster_authority, skill, damage);
    if dealt <= 0 || v.authority == AUTHORITY_GM {
        return SkillDamage::Shown;
    }
    let protected: bool = !(v.zone_id == ZONE_CHAOS_DUNGEON || v.zone_id == ZONE_KNIGHT_ROYALE);
    let reduced: i16 = apply_magic_damage_reduction(dealt, v.magic_damage_reduction);
    proof {
        crate::spell::law_reduction_never_adds(dealt, v.magic_damage_reduction);
    }
    assert(0 <= v.mirror_amount * reduced <= 255 * 32767) by (nonlinear_arith)
        requires
            0 <= v.mirror_amount <= 255,
            0 <= reduced <= 32767,
    ;
    assert(0 <= reduced * v.mana_absorb <= 255 * 32767) by (nonlinear_arith)
        requires
            0 <= v.mana_absorb <= 255,
            0 <= reduced <= 32767,
    ;
    let part: i32 = if protected && v.mirror_damage {
        (v.mirror_amount as i32 * reduced as i32) / 100
    } else {
        0
    };
    let left: i32 = protect(v, dealt);
    let mut mp: i16 = v.mp;
    let mut absorb_count: u8 = v.absorb_count;
    if v.mana_absorb > 0 && protected && (v.mana_absorb != 15 || v.absorb_count > 0) {
        let share: i16 = (reduced as i32 * v.mana_absorb as i32 / 100) as i16;
        mp = (v.mp as i32 + share as i32).min(v.max_mp as i32) as i16;
        if v.mana_absorb == 15 {
            absorb_count = v.absorb_count - 1;
        }
    }
    let taken: i16 = gm_fixed_skill_damage(caster_authority, skill, left as i16);
    let hp: i16 = (v.hp as i32 - taken as i32).max(0) as i16;
    let mirror: Mirror = if part <= 0 {
        Mirror::Nowhere
    } else if v.mirror_damage_type {
        Mirror::Attacker { damage: part as i16 }
    } else if v.in_party {
        Mirror::AttackerParty { damage: part }
    } else {
        Mirror::Nowhere
    };
    SkillDamage::Dealt(
        Wound { dealt, damage: taken, hp, mp, absorb_count, mirror, dies: hp <= 0 },
    )
}

/// Health after reflected damage.
pub open spec fn hp_after_reflection(hp: i16, reflected: i64) -> int {
    max_of(hp - reflected, 0)
}

/// Work out health after reflected damage.
pub fn reflected_hp(hp: i16, reflected: i64) -> (r: i16)
    requires
        reflected <= i64::MAX - 32768,
        hp - reflected <= i16::MAX,
    ensures
        r == hp_after_reflection(hp, reflected),
{
    let left: i64 = hp as i64 - reflected;
    if left > 0 {
        left as i16
    } else {
        0
    }
}

/// A member of the attacker's party.
#[derive(Clone, Copy, Debug, PartialEq, Eq, Structural)]
pub struct Member {
    pub sid: u16,
    pub hp: i16,
}

/// What each member of a party of `count` takes of mirrored damage: 2 where an even share
/// would be less than that, and otherwise as much as the party has members.
pub open spec fn mirror_share(mirrored: int, count: int) -> int {
    if tdiv(mirrored, count) < 2 {
        2
    } else {
        count
    }
}

/// The members that mirrored damage reaches, with the health it leaves them: all that live but
/// the victim themself.
pub open spec fn mirror_hits(members: Seq<Member>, victim_sid: u16, share: int) -> Seq<Member>
    decreases members.len(),
{
    if members.len() == 0 {
        Seq::empty()
    } else {
        let m = members.last();
        let rest = mirror_hits(members.drop_last(), victim_sid, share);
        if m.sid == victim_sid || m.hp <= 0 {
            rest
        } else {
            rest.push(Member { sid: m.sid, hp: max_of(m.hp - share, 0) as i16 })
        }
    }
}

/// Spread mirrored damage over the attacker's party.
pub fn mirror_to_party(members: &Vec<Member>, victim_sid: u16, mirrored: i32) -> (r: Vec<Member>)
    requires
        members@.len() <= i32::MAX,
    ensures
        r@ == mirror_hits(members@, victim_sid, mirror_share(mirrored as int, members@.len() as int)),
{
    let mut hits: Vec<Member> = Vec::new();
    if members.len() == 0 {
        return hits;
    }
    let count: i32 = members.len() as i32;
    proof {
        crate::arith::lemma_tdiv_shrinks(mirrored as int, count as int);
    }
    let share: i32 = if mirrored / count < 2 {
        2
    } else {
        count
    };
    let mut i: usize = 0;
    while i < members.len()
        invariant
            i <= members.len(),
            1 <= share,
            hits@ == mirror_hits(members@.take(i as int), victim_sid, share as int),
        decreases members.len() - i,
    {
        let m: Member = members[i];
        assert(members@.take(i + 1).drop_last() =~= members@.take(i as int));
        if m.sid != victim_sid && m.hp > 0 {
            hits.push(Member { sid: m.sid, hp: reflected_hp(m.hp, share as i64) });
        }
        i += 1;
    }
    assert(members@.take(members@.len() as int) =~= members@);
    hits
}

/// A bonus of a worn item.
#[derive(Clone, Copy, Debug)]
pub struct ItemBonus {
    pub kind: u8,
    pub amount: i32,
}

/// The sum of the mirror bonuses of worn items.
pub open spec fn mirror_bonus(bonuses: Seq<ItemBonus>) -> int
    decreases bonuses.len(),
{
    if bonuses.len() == 0 {
        0
    } else {
        let b = bonuses.last();
        let rest = mirror_bonus(bonuses.drop_last());
        if b.kind == ITEM_TYPE_MIRROR_DAMAGE {
            rest + b.amount
        } else {
            rest
        }
    }
}

/// The damage that worn items send back.
pub open spec fn sent_back(bonuses: Seq<ItemBonus>, damage: i16) -> int {
    if mirror_bonus(bonuses) > 0 {
        max_of(tdiv(damage * mirror_bonus(bonuses), 300), 0)
    } else {
        0
    }
}

/// Work out the damage that worn items send back: a three-hundredth for each point of their bonuses.
pub fn equipment_mirror(bonuses: &Vec<ItemBonus>, damage: i16) -> (r: i64)
    requires
        forall|n: int|
            0 <= n <= bonuses@.len() ==> i32::MIN <= #[trigger] mirror_bonus(bonuses@.take(n))
                <= i32::MAX,
    ensures
        r == sent_back(bonuses@, damage),
        0 <= r <= i64::MAX - 32768,
{
    let mut total: i32 = 0;
    let mut i: usize = 0;
    while i < bonuses.len()
        invariant
            i <= bonuses.len(),
            total == mirror_bonus(bonuses@.take(i as int)),
            forall|n: int|
                0 <= n <= bonuses@.len() ==> i32::MIN <= #[trigger] mirror_bonus(bonuses@.take(n))
                    <= i32::MAX,
        decreases bonuses.len() - i,
    {
        let b: ItemBonus = bonuses[i];
        assert(bonuses@.take(i + 1).drop_last() =~= bonuses@.take(i as int));
        assert(mirror_bonus(bonuses@.take(i + 1)) <= i32::MAX);
        if b.kind == ITEM_TYPE_MIRROR_DAMAGE {
            total = total + b.amount;
        }
        i += 1;
    }
    assert(bonuses@.take(bonuses@.len() as int) =~= bonuses@);
    if total > 0 {
        assert(-32768 * 0x7fff_ffff <= damage * total <= 32767 * 0x7fff_ffff) by (nonlinear_arith)
            requires
                -32768 <= damage <= 32767,
                0 < total <= 0x7fff_ffff,
        ;
        let back: i64 = damage as i64 * total as i64 / 300;
        if back > 0 {
            back
        } else {
            0
        }
    } else {
        0
    }
}

/// The skill with which elemental armor answers, for the armor's element and the nation of
/// the player who wears it.
pub open spec fn counter_skill(reflect_type: u8, nation: u8) -> Option<u32> {
    let first = nation == NATION_KARUS;
    if reflect_type == FIRE_DAMAGE {
        Some(if first { 190573u32 } else { 290573u32 })
    } else if reflect_type == ICE_DAMAGE {
        Some(if first { 190673u32 } else { 290673u32 })
    } else if reflect_type == LIGHTNING_DAMAGE {
        Some(if first { 190773u32 } else { 290773u32 })
    } else {
        None
    }
}

/// The skill with which elemental armor answers a hit, if it does.
pub open spec fn reflection(
    reflect_type: u8,
    nation: Option<u8>,
    caster_sid: u16,
    target_sid: u16,
    damage: i16,
) -> Option<u32> {
    match nation {
        Some(n) => if damage > 0 && caster_sid != target_sid {
            counter_skill(reflect_type, n)
        } else {
            None
        },
        None => None,
    }
}

/// Let elemental armor answer a hit. Where it does, it is used up: its element is cleared
/// before the answer is cast.
pub fn try_reflect_damage(
    reflect_type: &mut u8,
    nation: Option<u8>,
    caster_sid: u16,
    target_sid: u16,
    damage: i16,
) -> (r: Option<u32>)
    ensures
        r == reflection(*old(reflect_type), nation, caster_sid, target_sid, damage),
        *final(reflect_type) == (if r is Some {
            0
        } else {
            *old(reflect_type)
        }),
{
    if damage <= 0 || caster_sid == target_sid {
        return None;
    }
    let n: u8 = match nation {
        Some(n) => n,
        None => {
            return None;
        },
    };
    let kind: u8 = *reflect_type;
    let skill: u32 = if kind == FIRE_DAMAGE {
        if n == NATION_KARUS {
            190573
        } else {
            290573
        }
    } else if kind == ICE_DAMAGE {
        if n == NATION_KARUS {
            190673
        } else {
            290673
        }
    } else if kind == LIGHTNING_DAMAGE {
        if n == NATION_KARUS {
            190773
        } else {
            290773
        }
    } else {
        return None;
    };
    *reflect_type = 0;
    Some(skill)
}

/// Whether a cast is an armor's answer.
pub open spec fn is_counter(
    m: MagicInstance,
    skill_id: u32,
    caster_sid: u16,
    target_sid: u16,
    position: Option<(u16, u16)>,
) -> bool {
    &&& m.opcode == MAGIC_EFFECTING
    &&& m.skill_id == skill_id
    &&& m.caster_id == target_sid
    &&& m.target_id == caster_sid
    &&& m.data@ == (match position {
        Some((x, z)) => seq![x as i32, 0i32, z as i32, 0i32, 0i32, 0i32, 0i32],
        None => seq![0i32, 0i32, 0i32, 0i32, 0i32, 0i32, 0i32],
    })
}

/// The cast of an armor's answer: from the player who was hit, at the attacker, with the
/// position of the one who answers where it is known.
pub fn counter_instance(
    skill_id: u32,
    caster_sid: u16,
    target_sid: u16,
    position: Option<(u16, u16)>,
) -> (m: MagicInstance)
    ensures
        is_counter(m, skill_id, caster_sid, target_sid, position),
{
    let data: [i32; 7] = match position {
        Some((x, z)) => [x as i32, 0, z as i32, 0, 0, 0, 0],
        None => [0, 0, 0, 0, 0, 0, 0],
    };
    MagicInstance {
        opcode: MAGIC_EFFECTING,
        skill_id,
        caster_id: target_sid as i32,
        target_id: caster_sid as i32,
        data,
    }
}

/// How an armor's answer is carried out.
#[derive(Clone, Copy, Debug, PartialEq, Eq, Structural)]
pub enum CounterRoute {
    /// The answering skill is unknown.
    Dropped,
    Type1,
    Type2,
    Type3,
    /// The effect is shown and nothing more.
    Shown,
}

/// How an armor's answer is carried out, by its skill.
pub open spec fn counter_route(skill: Option<MagicRow>) -> CounterRoute {
    match skill {
        None => CounterRoute::Dropped,
        Some(s) => match s.type1 {
            Some(t) => if t == 1 {
                CounterRoute::Type1
            } else if t == 2 {
                CounterRoute::Type2
            } else if t == 3 {
                CounterRoute::Type3
            } else {
                CounterRoute::Shown
            },
            None => CounterRoute::Shown,
        },
    }
}

/// How an armor's answer is carried out.
pub fn route_counter(skill: &Option<MagicRow>) -> (r: CounterRoute)
    ensures
        r == counter_route(*skill),
{
    match skill {
        None => CounterRoute::Dropped,
        Some(s) => match s.type1.unwrap_or(0) {
            1 => CounterRoute::Type1,
            2 => CounterRoute::Type2,
            3 => CounterRoute::Type3,
            _ => CounterRoute::Shown,
        },
    }
}

/// What the attacker sees of a target's health. The amount is negative for damage.
#[derive(Clone, Copy, Debug, PartialEq, Eq, Structural)]
pub struct TargetHp {
    pub target_id: u32,
    pub max_hp: u32,
    pub hp: u32,
    pub amount: i32,
}

/// What an attacker sees of a player's health.
pub open spec fn target_hp(target_sid: u16, health: Option<(i16, i16)>, damage: i32) -> Option<
    TargetHp,
> {
    match health {
        Some((hp, max_hp)) => Some(
            TargetHp {
                target_id: target_sid as u32,
                max_hp: max_hp as u32,
                hp: max_of(hp as int, 0) as u32,
                amount: (-damage) as i32,
            },
        ),
        None => None,
    }
}

/// The health update that an attacker gets for a player, if the player is still there.
pub fn send_target_hp_update(
    target_sid: u16,
    health: Option<(i16, i16)>,
    damage: i32,
) -> (r: Option<TargetHp>)
    requires
        damage > i32::MIN,
    ensures
        r == target_hp(target_sid, health, damage),
{
    match health {
        Some((hp, max_hp)) => Some(
            TargetHp {
                target_id: target_sid as u32,
                max_hp: max_hp as u32,
                hp: hp.max(0) as u32,
                amount: -damage,
            },
        ),
        None => None,
    }
}

/// The event that keeps score of a kill.
#[derive(Clone, Copy, Debug, PartialEq, Eq, Structural)]
pub enum KillScore {
    BorderDefenceWar,
    Chaos,
    Juraid,
    Nobody,
}

/// The event that keeps score of a kill in a zone.
pub open spec fn score_of(zone_id: u16) -> KillScore {
    if zone_id == ZONE_BDW {
        KillScore::BorderDefenceWar
    } else if zone_id == ZONE_CHAOS_DUNGEON {
        KillScore::Chaos
    } else if zone_id == ZONE_JURAID {
        KillScore::Juraid
    } else {
        KillScore::Nobody
    }
}

/// The event that keeps score of a kill, by the killer's zone.
pub fn kill_score(zone_id: u16) -> (r: KillScore)
    ensures
        r == score_of(zone_id),
{
    if zone_id == ZONE_BDW {
        KillScore::BorderDefenceWar
    } else if zone_id == ZONE_CHAOS_DUNGEON {
        KillScore::Chaos
    } else if zone_id == ZONE_JURAID {
        KillScore::Juraid
    } else {
        KillScore::Nobody
    }
}

/// Protections never add damage, for mana shields of up to a hundred percent, and what is left
/// is never negative.
pub proof fn law_protections_never_hurt(v: Victim, damage: i16)
    requires
        damage >= 0,
        v.mana_absorb <= 100,
    ensures
        0 <= protected_damage(v, damage) <= damage,
{
    crate::spell::law_reduction_never_adds(damage, v.magic_damage_reduction);
    let reduced = reduced_damage(damage, v.magic_damage_reduction) as int;
    assert(v.mirror_amount * reduced >= 0) by (nonlinear_arith)
        requires
            v.mirror_amount >= 0,
            reduced >= 0,
    ;
    assert(0 <= reduced * v.mana_absorb <= 100 * reduced) by (nonlinear_arith)
        requires
            0 <= v.mana_absorb <= 100,
            reduced >= 0,
    ;
}

/// A hit never heals, and kills exactly where no health is left.
pub proof fn law_hits_never_heal(
    caster_authority: Option<u8>,
    skill: Option<MagicRow>,
    v: Victim,
    damage: i16,
)
    requires
        v.hp >= 0,
        parts_fit(v, overridden(caster_authority, skill, damage)),
    ensures
        match skill_damage(caster_authority, skill, v, damage) {
            SkillDamage::Dealt(w) => {
                &&& 0 <= w.hp <= v.hp
                &&& w.dies == (w.hp == 0)
                &&& v.hp - w.hp <= w.damage
            },
            SkillDamage::Shown => true,
        },
{
}

/// In zones without protections the whole reduced damage is taken, nothing is mirrored and no
/// mana is gained.
pub proof fn law_unprotected_zones(
    caster_authority: Option<u8>,
    skill: Option<MagicRow>,
    v: Victim,
    damage: i16,
)
    requires
        unprotected_zone(v.zone_id),
        damage >= 0,
    ensures
        protected_damage(v, damage) == reduced_damage(damage, v.magic_damage_reduction),
        wound(caster_authority, skill, v, damage).mirror == Mirror::Nowhere,
        wound(caster_authority, skill, v, damage).mp == v.mp,
{
    crate::spell::law_reduction_never_adds(damage, v.magic_damage_reduction);
}

/// A mana shield of 15 percent wears off: a hit that feeds it uses up one of its charges, and
/// without charges it absorbs nothing.
pub proof fn law_mana_shield_wears_off(
    caster_authority: Option<u8>,
    skill: Option<MagicRow>,
    v: Victim,
    damage: i16,
)
    requires
        v.mana_absorb == 15,
    ensures
        ({
            let w = wound(caster_authority, skill, v, damage);
            &&& v.absorb_count == 0 ==> w.mp == v.mp && w.absorb_count == 0
            &&& v.absorb_count > 0 && !unprotected_zone(v.zone_id) ==> w.absorb_count
                == v.absorb_count - 1
        }),
{
}

/// Elemental armor answers one hit only: whatever hits the player next, an armor that has
/// answered stays silent.
pub proof fn law_armor_answers_once(
    nation: Option<u8>,
    caster_sid: u16,
    target_sid: u16,
    damage: i16,
)
    ensures
        reflection(0, nation, caster_sid, target_sid, damage) is None,
{
}

/// Mirrored damage never reaches the victim, and leaves nobody with negative health.
pub proof fn law_mirror_spares_the_victim(members: Seq<Member>, victim_sid: u16, share: int)
    requires
        share >= 0,
    ensures
        forall|i: int|
            0 <= i < mirror_hits(members, victim_sid, share).len() ==> #[trigger] mirror_hits(
                members,
                victim_sid,
                share,
            )[i].sid != victim_sid,
        forall|i: int|
            0 <= i < mirror_hits(members, victim_sid, share).len() ==> #[trigger] mirror_hits(
                members,
                victim_sid,
                share,
            )[i].hp >= 0,
    decreases members.len(),
{
    if members.len() > 0 {
        law_mirror_spares_the_victim(members.drop_last(), victim_sid, share);
        let rest = mirror_hits(members.drop_last(), victim_sid, share);
        let all = mirror_hits(members, victim_sid, share);
        assert forall|i: int| 0 <= i < all.len() implies all[i].sid != victim_sid && all[i].hp
            >= 0 by {
            if i < rest.len() {
                assert(all[i] == rest[i]);
            }
        }
    }
}

/// What protections leave of damage, outside of zones 85 and 76: mirrors send their percentage
/// away, masters take 85 or 90 hundredths of the rest by their points, and a mana shield takes
/// its percentage of the whole off, the one of 15 only while it has charges. The target's magic
/// percentage comes before all of these, and in the two zones alone.
pub proof fn law_protections_take_their_part(v: Victim, damage: i16)
    requires
        damage >= 0,
        damage * v.mana_absorb <= 3276799,
    ensures
        ({
            let kept = if v.magic_damage_reduction >= 100 {
                damage as int
            } else {
                damage * v.magic_damage_reduction / 100
            };
            let bare = v.zone_id == 85 || v.zone_id == 76;
            let mirrored_part = if v.mirror_damage && !bare {
                v.mirror_amount * kept / 100
            } else {
                0
            };
            let rest = if mirrored_part <= kept {
                kept - mirrored_part
            } else {
                0
            };
            let mastered = if !v.mastered || bare || v.master_points <= 4 {
                rest
            } else if v.master_points <= 9 {
                90 * rest / 100
            } else {
                85 * rest / 100
            };
            let shields = !bare && v.mana_absorb >= 1 && !(v.mana_absorb == 15 && v.absorb_count
                == 0);
            let shield = if shields {
                kept * v.mana_absorb / 100
            } else {
                0
            };
            let left = protected_damage(v, damage);
            &&& mirrored(v, kept) == mirrored_part
            &&& absorbs(v) == shields
            &&& absorbed(v, kept) == shield
            &&& mastered >= shield ==> left == mastered - shield
            &&& mastered <= shield ==> left == 0
            &&& unprotected_zone(v.zone_id) == bare
        }),
{
    crate::spell::law_reduction_never_adds(damage, v.magic_damage_reduction);
    crate::spell::law_reduction_takes_its_percentage(damage, v.magic_damage_reduction);
    let kept = if v.magic_damage_reduction >= 100 {
        damage as int
    } else {
        damage * v.magic_damage_reduction / 100
    };
    assert(kept == reduced_damage(damage, v.magic_damage_reduction));
    assert(0 <= v.mirror_amount * kept) by (nonlinear_arith)
        requires
            0 <= v.mirror_amount,
            0 <= kept,
    ;
    assert(0 <= kept * v.mana_absorb <= damage * v.mana_absorb) by (nonlinear_arith)
        requires
            0 <= v.mana_absorb,
            0 <= kept <= damage,
    ;
}

/// What a hit does to a player: nothing to a game master or without damage, and else what the
/// protections leave is taken off their health, down to nothing. A game master's skill does
/// 30000 in place of it unless it is a spell. What a mana shield takes turns into mana, up to
/// the maximum, and uses up a charge of the shield of 15; what is mirrored goes to the attacker
/// alone or to a party's attacker's party.
pub proof fn law_what_hits_do(
    authority: Option<u8>,
    skill: Option<MagicRow>,
    v: Victim,
    damage: i16,
)
    requires
        v.mirror_amount <= 100,
        v.mana_absorb <= 100,
        v.magic_damage_reduction >= 100,
        0 <= v.mp <= v.max_mp,
    ensures
        ({
            let spell = skill is Some && (skill->0.type1 == Some(3i16) || skill->0.type2 == Some(
                3i16,
            ));
            let master = authority == Some(0u8) && !spell;
            let dealt = if master {
                30000
            } else {
                damage as int
            };
            let bare = v.zone_id == 85 || v.zone_id == 76;
            match skill_damage(authority, skill, v, damage) {
                SkillDamage::Shown => dealt <= 0 || v.authority == 0,
                SkillDamage::Dealt(w) => {
                    let gained = dealt * v.mana_absorb / 100;
                    let sent = v.mirror_amount * dealt / 100;
                    &&& dealt > 0 && v.authority != 0
                    &&& w.dealt == dealt
                    &&& master ==> w.damage == 30000
                    &&& !master ==> w.damage == protected_damage(v, dealt as i16)
                    &&& v.hp > w.damage ==> w.hp == v.hp - w.damage && !w.dies
                    &&& v.hp <= w.damage ==> w.hp == 0 && w.dies
                    &&& absorbs(v) && v.mp + gained <= v.max_mp ==> w.mp - v.mp == gained
                    &&& absorbs(v) && v.mp + gained >= v.max_mp ==> w.mp == v.max_mp
                    &&& !absorbs(v) ==> w.mp == v.mp
                    &&& absorbs(v) && v.mana_absorb == 15 ==> w.absorb_count + 1 == v.absorb_count
                    &&& !(absorbs(v) && v.mana_absorb == 15) ==> w.absorb_count == v.absorb_count
                    &&& match w.mirror {
                        Mirror::Nowhere => bare || !v.mirror_damage || sent == 0 || (
                        !v.mirror_damage_type && !v.in_party),
                        Mirror::Attacker { damage: part } => !bare && v.mirror_damage
                            && v.mirror_damage_type && part == sent && sent > 0,
                        Mirror::AttackerParty { damage: part } => !bare && v.mirror_damage
                            && !v.mirror_damage_type && v.in_party && part == sent && sent > 0,
                    }
                },
            }
        }),
{
    let dealt = overridden(authority, skill, damage);
    if dealt > 0 {
        assert(dealt * v.mana_absorb <= 3276799) by (nonlinear_arith)
            requires
                0 <= v.mana_absorb <= 100,
                0 <= dealt <= 32767,
        ;
        law_protections_take_their_part(v, dealt);
        law_protections_never_hurt(v, dealt);
        assert(0 <= v.mirror_amount * dealt <= 100 * dealt) by (nonlinear_arith)
            requires
                0 <= v.mirror_amount <= 100,
                0 <= dealt,
        ;
        assert(0 <= dealt * v.mana_absorb <= 100 * dealt) by (nonlinear_arith)
            requires
                0 <= v.mana_absorb <= 100,
                0 <= dealt,
        ;
    }
}

/// Mirrored damage takes 2 from each member where the members' even share would be less than
/// that, and else as much as there are members.
pub proof fn law_mirrored_shares(mirrored: int, count: int)
    requires
        mirrored >= 0,
        count >= 1,
    ensures
        mirrored < 2 * count ==> mirror_share(mirrored, count) == 2,
        mirrored >= 2 * count ==> mirror_share(mirrored, count) == count,
{
    vstd::arithmetic::div_mod::lemma_fundamental_div_mod(mirrored, count);
    vstd::arithmetic::div_mod::lemma_mod_bound(mirrored, count);
    let q = mirrored / count;
    assert(mirrored < 2 * count ==> q < 2) by (nonlinear_arith)
        requires
            count * q <= mirrored,
            count >= 1,
    ;
    assert(mirrored >= 2 * count ==> q >= 2) by (nonlinear_arith)
        requires
            mirrored < count * q + count,
            count >= 1,
    ;
}

/// Whom mirrored damage reaches: every living member but the victim, in their order, each
/// losing the share down to nothing.
pub proof fn law_mirrored_damage_reaches_the_party(
    members: Seq<Member>,
    m: Member,
    victim_sid: u16,
    share: int,
)
    requires
        0 <= share <= 32767,
    ensures
        mirror_hits(Seq::empty(), victim_sid, share).len() == 0,
        m.sid == victim_sid || m.hp <= 0 ==> mirror_hits(members.push(m), victim_sid, share)
            == mirror_hits(members, victim_sid, share),
        m.sid != victim_sid && m.hp > 0 ==> {
            let hits = mirror_hits(members.push(m), victim_sid, share);
            &&& hits.drop_last() == mirror_hits(members, victim_sid, share)
            &&& hits.last().sid == m.sid
            &&& m.hp >= share ==> hits.last().hp == m.hp - share
            &&& m.hp <= share ==> hits.last().hp == 0
        },
{
    assert(members.push(m).drop_last() =~= members);
    let before = mirror_hits(members, victim_sid, share);
    let after = mirror_hits(members.push(m), victim_sid, share);
    if m.sid != victim_sid && m.hp > 0 {
        assert(after.drop_last() =~= before);
    }
}

/// Worn items mirror by the sum of their bonuses of kind 8 alone.
pub proof fn law_mirror_bonuses_add_up(bonuses: Seq<ItemBonus>, b: ItemBonus)
    ensures
        mirror_bonus(Seq::empty()) == 0,
        b.kind == 8 ==> mirror_bonus(bonuses.push(b)) - mirror_bonus(bonuses) == b.amount,
        b.kind != 8 ==> mirror_bonus(bonuses.push(b)) == mirror_bonus(bonuses),
{
    assert(bonuses.push(b).drop_last() =~= bonuses);
}

/// How elemental armor answers: by its element, 5 for fire, 6 for ice and 7 for lightning, each
/// with a skill of the wearer's nation. It answers only hits that do damage, and never its own
/// wearer.
pub proof fn law_armor_answers_by_its_element(
    element: u8,
    nation: Option<u8>,
    caster_sid: u16,
    target_sid: u16,
    damage: i16,
)
    ensures
        match reflection(element, nation, caster_sid, target_sid, damage) {
            Some(skill) => {
                &&& 5 <= element <= 7
                &&& nation is Some
                &&& damage >= 1
                &&& caster_sid != target_sid
                &&& nation == Some(1u8) ==> skill == 190573 + 100 * (element - 5)
                &&& nation != Some(1u8) ==> skill == 290573 + 100 * (element - 5)
            },
            None => !(5 <= element <= 7) || nation is None || damage <= 0 || caster_sid
                == target_sid,
        },
{
}

/// The game master's skills do 30000 but for spells; nobody else's damage changes.
pub proof fn law_masters_do_a_fixed_amount(
    authority: Option<u8>,
    skill: Option<MagicRow>,
    damage: i16,
)
    ensures
        is_spell(skill) <==> skill is Some && (skill->0.type1 == Some(3i16) || skill->0.type2
            == Some(3i16)),
        authority != Some(0u8) || is_spell(skill) ==> overridden(authority, skill, damage)
            == damage,
        authority == Some(0u8) && !is_spell(skill) ==> overridden(authority, skill, damage)
            == 30000,
{
}

/// What reflections and worn mirrors do: reflected damage is taken off health down to nothing,
/// and worn items send back a three-hundredth of the damage for each point of their bonuses,
/// rounded down, and nothing without any.
pub proof fn law_what_is_sent_back(bonuses: Seq<ItemBonus>, damage: i16, hp: i16, reflected: i64)
    requires
        damage >= 0,
    ensures
        hp >= reflected ==> hp - hp_after_reflection(hp, reflected) == reflected,
        hp <= reflected ==> hp_after_reflection(hp, reflected) == 0,
        mirror_bonus(bonuses) <= 0 ==> sent_back(bonuses, damage) == 0,
        mirror_bonus(bonuses) > 0 ==> 300 * sent_back(bonuses, damage) <= damage * mirror_bonus(
            bonuses,
        ) < 300 * sent_back(bonuses, damage) + 300,
{
    let total = mirror_bonus(bonuses);
    if total > 0 {
        assert(0 <= damage * total) by (nonlinear_arith)
            requires
                0 <= damage,
                0 < total,
        ;
    }
}

/// How an armor's answer goes: as an effect (3) from the one who was hit to the attacker, with
/// the place of the one who was hit in the first and third word where it is known, and zeros
/// elsewhere. It is carried out by its type, 1, 2 or 3, others are only shown, and an unknown
/// skill is dropped.
pub proof fn law_how_armor_answers(
    m: MagicInstance,
    skill_id: u32,
    caster_sid: u16,
    target_sid: u16,
    position: Option<(u16, u16)>,
    skill: MagicRow,
)
    requires
        is_counter(m, skill_id, caster_sid, target_sid, position),
    ensures
        m.opcode == 3,
        m.skill_id == skill_id,
        m.caster_id == target_sid,
        m.target_id == caster_sid,
        match position {
            Some((x, z)) => m.data@[0] == x && m.data@[2] == z,
            None => m.data@[0] == 0 && m.data@[2] == 0,
        },
        m.data@[1] == 0 && m.data@[3] == 0 && m.data@[4] == 0 && m.data@[5] == 0 && m.data@[6]
            == 0,
        counter_route(None) is Dropped,
        counter_route(Some(skill)) is Type1 <==> skill.type1 == Some(1i16),
        counter_route(Some(skill)) is Type2 <==> skill.type1 == Some(2i16),
        counter_route(Some(skill)) is Type3 <==> skill.type1 == Some(3i16),
        !(counter_route(Some(skill)) is Dropped),
{
}

/// What an attacker sees of a player who is there: their session, their health, never below 0,
/// its maximum, and the damage as a negative amount.
pub proof fn law_what_attackers_see(sid: u16, hp: i16, max_hp: i16, damage: i32)
    requires
        damage > i32::MIN,
        max_hp >= 0,
    ensures
        target_hp(sid, None, damage) is None,
        match target_hp(sid, Some((hp, max_hp)), damage) {
            Some(t) => {
                &&& t.target_id == sid
                &&& t.max_hp == max_hp
                &&& hp >= 0 ==> t.hp == hp
                &&& hp <= 0 ==> t.hp == 0
                &&& t.amount + damage == 0
            },
            None => false,
        },
{
}

/// Which event keeps score of a kill: the one of zone 84, 85 or 87, and none elsewhere.
pub proof fn law_who_keeps_score(zone_id: u16)
    ensures
        score_of(zone_id) is BorderDefenceWar <==> zone_id == 84,
        score_of(zone_id) is Chaos <==> zone_id == 85,
        score_of(zone_id) is Juraid <==> zone_id == 87,
{
}

} // verus!
