//! Cures and resurrections.

use crate::arith::{max_of, or_i32, tdiv};
use crate::cast::{dead, is_dead};
use crate::constants::{
    AUTHORITY_GM, NPC_BAND, USER_STANDING, USER_STATUS_CURE, USER_STATUS_DOT, USER_STATUS_POISON,
    WIZ_STEALTH, WIZ_ZONEABILITY, ZONE_CHAOS_DUNGEON, ZONE_DUNGEON_DEFENCE,
    ZONE_KNIGHT_ROYALE_RES, ZONE_UNDER_CASTLE,
};
use crate::instance::{fail_reason, same_cast, MagicInstance};
use crate::notices::{build_stealth_reset, build_user_status, ZONEABILITY_STATUS};
use crate::packet::{u16_bytes, Packet};
use crate::tables::{MagicRow, MagicType5Row};
use vstd::prelude::*;

verus! {

/// Kinds of cures and resurrections.
pub const TYPE5_REMOVE_TYPE3: i32 = 1;
pub const TYPE5_REMOVE_TYPE4: i32 = 2;
pub const TYPE5_RESURRECTION: i32 = 3;
pub const TYPE5_RESURRECTION_SELF: i32 = 4;
pub const TYPE5_REMOVE_BLESS: i32 = 5;
pub const TYPE5_LIFE_CRYSTAL: i32 = 6;

/// The buff type that a bless is.
pub const BUFF_TYPE_BLESS: i32 = 50;

/// Seconds that a resurrected player cannot be hurt for.
pub const BLINK_SECS: u64 = 10;

/// Stones that a resurrection costs the dead, and what of them its caster gets.
#[derive(Clone, Copy, Debug, PartialEq, Eq, Structural)]
pub struct StoneFee {
    pub item_id: u32,
    pub count: u16,
    pub reward: u16,
}

/// What a cure or resurrection does.
#[derive(Clone, Copy, Debug, PartialEq, Eq, Structural)]
pub enum Type5Action {
    /// The caster is told that the skill failed.
    Failed,
    /// Nothing happens, and nothing is shown.
    Ignored,
    CureDots,
    CureDebuffs,
    RemoveBless,
    /// The target is resurrected, once the fee is paid. `experience` is the percentage of lost
    /// experience that comes back.
    Revive { fee: Option<StoneFee>, experience: i32 },
    /// The effect is shown and nothing happens.
    Shown,
}

/// Whom a cure or resurrection is for: the caster, unless it is aimed at a player.
pub fn type5_target(target_id: i32, caster_sid: u16) -> (r: u16)
    ensures
        r == cured_sid(target_id, caster_sid),
{
    if target_id < 0 || (target_id as u32) >= NPC_BAND {
        caster_sid
    } else {
        target_id as u16
    }
}

/// The stones that a resurrection costs: none where the skill needs no item or no stones. The
/// caster gets half of them and one.
pub open spec fn stone_fee(skill: MagicRow, row: MagicType5Row) -> Option<StoneFee> {
    let item = or_i32(skill.use_item, 0);
    let count = max_of(or_i32(row.need_stone, 0) as int, 0) as u16;
    if item > 0 && count > 0 {
        Some(
            StoneFee {
                item_id: item as u32,
                count,
                reward: (count / 2 + 1) as u16,
            },
        )
    } else {
        None
    }
}

/// Work out the stones that a resurrection costs.
pub fn get_stone_fee(skill: &MagicRow, row: &MagicType5Row) -> (r: Option<StoneFee>)
    ensures
        r == stone_fee(*skill, *row),
{
    let item: i32 = skill.use_item.unwrap_or(0);
    let count: u16 = row.need_stone.unwrap_or(0).max(0) as u16;
    if item > 0 && count > 0 {
        Some(StoneFee { item_id: item as u32, count, reward: count / 2 + 1 })
    } else {
        None
    }
}

/// What a cure or resurrection does to a target whose state and health are given, if the
/// target is there. Only the dead are resurrected; by one kind only the caster themself.
pub open spec fn type5_action(
    skill: MagicRow,
    row: Option<MagicType5Row>,
    target: Option<(u8, i16)>,
    oneself: bool,
) -> Type5Action {
    match (row, target) {
        (Some(row), Some((res, hp))) => {
            let kind = or_i32(row.sub_type, 0);
            if kind == TYPE5_REMOVE_TYPE3 {
                Type5Action::CureDots
            } else if kind == TYPE5_REMOVE_TYPE4 {
                Type5Action::CureDebuffs
            } else if kind == TYPE5_RESURRECTION || kind == TYPE5_LIFE_CRYSTAL {
                if dead(res, hp) {
                    Type5Action::Revive {
                        fee: if kind == TYPE5_RESURRECTION {
                            stone_fee(skill, row)
                        } else {
                            None
                        },
                        experience: max_of(or_i32(row.exp_recover, 50) as int, 0) as i32,
                    }
                } else {
                    Type5Action::Failed
                }
            } else if kind == TYPE5_RESURRECTION_SELF {
                if !oneself {
                    Type5Action::Ignored
                } else if dead(res, hp) {
                    Type5Action::Revive {
                        fee: None,
                        experience: max_of(or_i32(row.exp_recover, 30) as int, 0) as i32,
                    }
                } else {
                    Type5Action::Failed
                }
            } else if kind == TYPE5_REMOVE_BLESS {
                Type5Action::RemoveBless
            } else {
                Type5Action::Shown
            }
        },
        _ => Type5Action::Failed,
    }
}

/// Find out what a cure or resurrection does.
pub fn plan_type5(
    skill: &MagicRow,
    row: &Option<MagicType5Row>,
    target: Option<(u8, i16)>,
    oneself: bool,
) -> (r: Type5Action)
    ensures
        r == type5_action(*skill, *row, target, oneself),
{
    let row: MagicType5Row = match row {
        Some(d) => *d,
        None => {
            return Type5Action::Failed;
        },
    };
    let is_corpse: bool = match target {
        Some((res, hp)) => is_dead(res, hp),
        None => {
            return Type5Action::Failed;
        },
    };
    let kind: i32 = row.sub_type.unwrap_or(0);
    if kind == TYPE5_REMOVE_TYPE3 {
        Type5Action::CureDots
    } else if kind == TYPE5_REMOVE_TYPE4 {
        Type5Action::CureDebuffs
    } else if kind == TYPE5_RESURRECTION || kind == TYPE5_LIFE_CRYSTAL {
        if !is_corpse {
            return Type5Action::Failed;
        }
        let fee: Option<StoneFee> = if kind == TYPE5_RESURRECTION {
            get_stone_fee(skill, &row)
        } else {
            None
        };
        Type5Action::Revive { fee, experience: row.exp_recover.unwrap_or(50).max(0) }
    } else if kind == TYPE5_RESURRECTION_SELF {
        if !oneself {
            return Type5Action::Ignored;
        }
        if !is_corpse {
            return Type5Action::Failed;
        }
        Type5Action::Revive { fee: None, experience: row.exp_recover.unwrap_or(30).max(0) }
    } else if kind == TYPE5_REMOVE_BLESS {
        Type5Action::RemoveBless
    } else {
        Type5Action::Shown
    }
}

/// Note a cure or resurrection in its cast.
pub fn mark_type5(m: &mut MagicInstance)
    ensures
        same_cast(*final(m), *old(m)),
        final(m).data@ == old(m).data@.update(1, 1),
{
    m.data[1] = 1;
}

/// A dead player. `who_killed_me` is -1 where no player killed them.
#[derive(Clone, Copy, Debug)]
pub struct Corpse {
    pub max_hp: i16,
    pub max_mp: i16,
    pub zone_id: u16,
    pub who_killed_me: i32,
    pub lost_exp: i64,
}

/// A player back from the dead.
#[derive(Clone, Copy, Debug, PartialEq, Eq, Structural)]
pub struct Revival {
    pub res_hp_type: u8,
    pub hp: i16,
    pub mp: i16,
    /// Experience that comes back; 0 for none.
    pub restored_exp: i64,
    pub who_killed_me: i32,
    pub lost_exp: i64,
}

/// Whether any experience comes back: only what was lost to monsters, and none in the Under
/// Castle.
pub open spec fn exp_comes_back(c: Corpse) -> bool {
    c.zone_id != ZONE_UNDER_CASTLE && c.who_killed_me == -1 && c.lost_exp > 0
}

/// The experience that comes back: a percentage of what was lost.
pub open spec fn restored_exp(c: Corpse, experience: i32) -> int {
    if exp_comes_back(c) {
        tdiv(c.lost_exp * experience, 100)
    } else {
        0
    }
}

/// Resurrect a player: with full health, and without mana except in the Under Castle.
pub fn revive(c: &Corpse, experience: i32) -> (r: Revival)
    requires
        exp_comes_back(*c) ==> experience >= 0 && c.lost_exp * experience <= i64::MAX,
    ensures
        r == revival(*c, experience),
{
    let mut back: i64 = 0;
    let mut mp: i16 = c.max_mp;
    if c.zone_id != ZONE_UNDER_CASTLE {
        mp = 0;
        if c.who_killed_me == -1 && c.lost_exp > 0 {
            assert(c.lost_exp * experience >= 0) by (nonlinear_arith)
                requires
                    c.lost_exp > 0,
                    experience >= 0,
            ;
            back = c.lost_exp * (experience as i64) / 100;
        }
    }
    Revival {
        res_hp_type: USER_STANDING,
        hp: c.max_hp,
        mp,
        restored_exp: back,
        who_killed_me: -1,
        lost_exp: 0,
    }
}

/// What a cure or resurrection meets.
#[derive(Clone, Copy, Debug)]
pub struct CureScene {
    pub caster_sid: u16,
    /// The target's state and health; `None` where the target is not there.
    pub target: Option<(u8, i16)>,
    /// The target, where they are dead.
    pub corpse: Corpse,
    /// Whether the target has the stones that a resurrection costs.
    pub fee_paid: bool,
}

/// What comes of a cure or resurrection.
#[derive(Clone, Copy, Debug, PartialEq, Eq, Structural)]
pub enum CureOutcome {
    /// The caster is told that the skill failed.
    Failed,
    /// Nothing happens, and nothing is shown.
    Ignored,
    CuredDots { sid: u16 },
    CuredDebuffs { sid: u16 },
    LostBless { sid: u16 },
    Revived { sid: u16, fee: Option<StoneFee>, revival: Revival },
    /// The effect is shown and nothing happens.
    Shown,
}

impl CureOutcome {
    /// Whether the skill was carried out. One that is ignored was.
    pub fn lands(&self) -> (r: bool)
        ensures
            r == !(self is Failed),
    {
        !matches!(self, CureOutcome::Failed)
    }
}

/// A dead player back on their feet.
pub open spec fn revival(c: Corpse, experience: i32) -> Revival {
    Revival {
        res_hp_type: USER_STANDING,
        hp: c.max_hp,
        mp: if c.zone_id == ZONE_UNDER_CASTLE {
            c.max_mp
        } else {
            0
        },
        restored_exp: restored_exp(c, experience) as i64,
        who_killed_me: -1i32,
        lost_exp: 0,
    }
}

/// Whom a cure or resurrection is for.
pub open spec fn cured_sid(target_id: i32, caster_sid: u16) -> u16 {
    if target_id < 0 || target_id >= NPC_BAND {
        caster_sid
    } else {
        target_id as u16
    }
}

/// What comes of a cure or resurrection. Without the stones that it costs, a resurrection
/// fails.
pub open spec fn cure_outcome(
    target_id: i32,
    skill: MagicRow,
    row: Option<MagicType5Row>,
    s: CureScene,
) -> CureOutcome {
    let sid = cured_sid(target_id, s.caster_sid);
    match type5_action(skill, row, s.target, sid == s.caster_sid) {
        Type5Action::Failed => CureOutcome::Failed,
        Type5Action::Ignored => CureOutcome::Ignored,
        Type5Action::CureDots => CureOutcome::CuredDots { sid },
        Type5Action::CureDebuffs => CureOutcome::CuredDebuffs { sid },
        Type5Action::RemoveBless => CureOutcome::LostBless { sid },
        Type5Action::Revive { fee, experience } => if fee is Some && !s.fee_paid {
            CureOutcome::Failed
        } else {
            CureOutcome::Revived { sid, fee, revival: revival(s.corpse, experience) }
        },
        Type5Action::Shown => CureOutcome::Shown,
    }
}

/// Whether the experience of a resurrection, where one comes about and returns any, can be
/// worked out in 64 bits.
pub open spec fn cure_fits(
    target_id: i32,
    skill: MagicRow,
    row: Option<MagicType5Row>,
    s: CureScene,
) -> bool {
    let sid = cured_sid(target_id, s.caster_sid);
    match type5_action(skill, row, s.target, sid == s.caster_sid) {
        Type5Action::Revive { fee, experience } => (fee is None || s.fee_paid) && exp_comes_back(
            s.corpse,
        ) ==> s.corpse.lost_exp * experience <= i64::MAX,
        _ => true,
    }
}

/// The data words of a cast after a cure or resurrection.
pub open spec fn cure_words(opcode: u8, data: Seq<i32>, r: CureOutcome) -> Seq<i32> {
    match r {
        CureOutcome::Failed => data.update(3, fail_reason(opcode)),
        CureOutcome::Ignored => data,
        _ => data.update(1, 1),
    }
}

/// Carry out a cure or resurrection. Unless it fails or is ignored, its cast says so.
pub fn execute_type5(
    m: &mut MagicInstance,
    skill: &MagicRow,
    row: &Option<MagicType5Row>,
    s: &CureScene,
) -> (r: CureOutcome)
    requires
        cure_fits(old(m).target_id, *skill, *row, *s),
    ensures
        r == cure_outcome(old(m).target_id, *skill, *row, *s),
        same_cast(*final(m), *old(m)),
        final(m).data@ == cure_words(old(m).opcode, old(m).data@, r),
{
    let sid: u16 = type5_target(m.target_id, s.caster_sid);
    let action: Type5Action = plan_type5(skill, row, s.target, sid == s.caster_sid);
    let outcome: CureOutcome = match action {
        Type5Action::Failed => CureOutcome::Failed,
        Type5Action::Ignored => CureOutcome::Ignored,
        Type5Action::CureDots => CureOutcome::CuredDots { sid },
        Type5Action::CureDebuffs => CureOutcome::CuredDebuffs { sid },
        Type5Action::RemoveBless => CureOutcome::LostBless { sid },
        Type5Action::Revive { fee, experience } => {
            if fee.is_some() && !s.fee_paid {
                CureOutcome::Failed
            } else {
                let back: Revival = revive(&s.corpse, experience);
                CureOutcome::Revived { sid, fee, revival: back }
            }
        },
        Type5Action::Shown => CureOutcome::Shown,
    };
    match outcome {
        CureOutcome::Failed => {
            let _packet = m.send_skill_failed();
        },
        CureOutcome::Ignored => {},
        _ => {
            mark_type5(m);
        },
    }
    outcome
}

/// What a resurrected player's surroundings decide.
#[derive(Clone, Copy, Debug)]
pub struct RevivalPlace {
    pub zone_id: u16,
    /// Whether the zone is known, at war, and one in which players blink.
    pub zone_known: bool,
    pub war_zone: bool,
    pub blink_zone: bool,
    pub authority: Option<u8>,
    pub transformed: bool,
}

/// What follows a resurrection.
#[derive(Clone, Debug)]
pub struct AfterRevival {
    /// How the player is hidden: not at all.
    pub invisibility_type: u8,
    /// Whether all damage and healing over time ends.
    pub ends_effects_over_time: bool,
    /// What the player is told: that the stealth is over, and that damage over time and poison
    /// are cured.
    pub notices: Vec<Packet>,
    /// Whether buffs end, and the saved ones begin anew.
    pub renews_buffs: bool,
    /// Until when the player blinks and uses no skills, in seconds; `None` for not at all.
    pub blinks_until: Option<u64>,
}

/// Whether a resurrected player blinks: where the zone lets them, unless it is at war, and
/// never game masters or the transformed.
pub open spec fn blinks(p: RevivalPlace) -> bool {
    p.zone_known && !p.war_zone && p.blink_zone && p.authority != Some(AUTHORITY_GM)
        && !p.transformed
}

/// What a resurrected player is told.
pub open spec fn are_cure_notices(notices: Seq<Packet>) -> bool {
    &&& notices.len() == 3
    &&& notices[0].opcode == WIZ_STEALTH
    &&& notices[0].data@ == seq![0u8] + u16_bytes(0)
    &&& notices[1].opcode == WIZ_ZONEABILITY
    &&& notices[1].data@ == seq![ZONEABILITY_STATUS, USER_STATUS_DOT, USER_STATUS_CURE]
    &&& notices[2].opcode == WIZ_ZONEABILITY
    &&& notices[2].data@ == seq![ZONEABILITY_STATUS, USER_STATUS_POISON, USER_STATUS_CURE]
}

/// What follows a resurrection. Stealth and effects over time end in any case; buffs stay in
/// event zones.
pub open spec fn is_after_revival(r: AfterRevival, p: RevivalPlace, now: u64) -> bool {
    &&& r.invisibility_type == 0
    &&& r.ends_effects_over_time
    &&& are_cure_notices(r.notices@)
    &&& r.renews_buffs == (p.zone_id != ZONE_CHAOS_DUNGEON && p.zone_id != ZONE_DUNGEON_DEFENCE
        && p.zone_id != ZONE_KNIGHT_ROYALE_RES)
    &&& r.blinks_until == (if blinks(p) {
        Some((now + BLINK_SECS) as u64)
    } else {
        None
    })
}

/// Work out what follows a resurrection.
pub fn post_resurrection_sequence(p: &RevivalPlace, now: u64) -> (r: AfterRevival)
    requires
        blinks(*p) ==> now <= u64::MAX - BLINK_SECS,
    ensures
        is_after_revival(r, *p, now),
{
    let mut notices: Vec<Packet> = Vec::new();
    notices.push(build_stealth_reset());
    notices.push(build_user_status(USER_STATUS_DOT, USER_STATUS_CURE));
    notices.push(build_user_status(USER_STATUS_POISON, USER_STATUS_CURE));
    let renews_buffs: bool = p.zone_id != ZONE_CHAOS_DUNGEON && p.zone_id != ZONE_DUNGEON_DEFENCE
        && p.zone_id != ZONE_KNIGHT_ROYALE_RES;
    let master: bool = match p.authority {
        Some(a) => a == AUTHORITY_GM,
        None => false,
    };
    let blinking: bool = p.zone_known && !p.war_zone && p.blink_zone && !master && !p.transformed;
    AfterRevival {
        invisibility_type: 0,
        ends_effects_over_time: true,
        notices,
        renews_buffs,
        blinks_until: if blinking {
            Some(now + BLINK_SECS)
        } else {
            None
        },
    }
}

/// Nobody comes back from the living: a resurrection of someone who lives fails or is ignored.
pub proof fn law_only_the_dead_are_revived(
    skill: MagicRow,
    row: Option<MagicType5Row>,
    res: u8,
    hp: i16,
    oneself: bool,
)
    requires
        !dead(res, hp),
    ensures
        !(type5_action(skill, row, Some((res, hp)), oneself) is Revive),
{
}

/// A resurrection never returns more experience than was lost, as long as its percentage is at
/// most a hundred.
pub proof fn law_experience_is_not_made(c: Corpse, experience: i32)
    requires
        0 <= experience <= 100,
        c.lost_exp >= 0,
    ensures
        0 <= restored_exp(c, experience) <= c.lost_exp,
{
    assert(0 <= c.lost_exp * experience <= c.lost_exp * 100) by (nonlinear_arith)
        requires
            0 <= experience <= 100,
            c.lost_exp >= 0,
    ;
    crate::arith::lemma_tdiv_monotone(c.lost_exp * experience, c.lost_exp * 100, 100);
    crate::arith::lemma_tdiv_shrinks(c.lost_exp * experience, 100);
}

/// Experience lost to a player never comes back.
pub proof fn law_lost_to_players_stays_lost(c: Corpse, experience: i32)
    requires
        c.who_killed_me != -1,
    ensures
        restored_exp(c, experience) == 0,
{
}

/// The caster of a resurrection never gets more stones than the dead paid.
pub proof fn law_stones_are_not_made(skill: MagicRow, row: MagicType5Row)
    requires
        stone_fee(skill, row) is Some,
    ensures
        1 <= stone_fee(skill, row)->0.reward <= stone_fee(skill, row)->0.count,
{
}

/// A resurrection that needs an item and stones costs all of those stones, and its caster gets
/// half of them, rounded down, and one more. One that needs no item or no stone costs none.
pub proof fn law_what_resurrections_cost(skill: MagicRow, row: MagicType5Row)
    requires
        or_i32(row.need_stone, 0) <= 65535,
    ensures
        match stone_fee(skill, row) {
            Some(fee) => {
                &&& skill.use_item is Some && skill.use_item->0 >= 1
                &&& row.need_stone is Some && row.need_stone->0 >= 1
                &&& fee.item_id == skill.use_item->0
                &&& fee.count == row.need_stone->0
                &&& 2 * fee.reward - 2 <= fee.count <= 2 * fee.reward - 1
            },
            None => or_i32(skill.use_item, 0) <= 0 || or_i32(row.need_stone, 0) <= 0,
        },
{
}

/// What the kinds of cures do: 1 cures what hurts over time, 2 debuffs, 5 takes a bless away,
/// 3 and 6 bring the dead back with 50 percent of their experience unless the row says
/// otherwise, 4 only the caster with 30, and 3 alone costs stones. Without a row or a target
/// every kind fails.
pub proof fn law_what_the_kinds_cure(
    skill: MagicRow,
    row: MagicType5Row,
    posture: u8,
    hp: i16,
    oneself: bool,
)
    ensures
        type5_action(skill, None, Some((posture, hp)), oneself) is Failed,
        type5_action(skill, Some(row), None, oneself) is Failed,
        ({
            let kind = or_i32(row.sub_type, 0);
            let dies = posture == 3 || hp <= 0;
            let a = type5_action(skill, Some(row), Some((posture, hp)), oneself);
            &&& a is CureDots <==> kind == 1
            &&& a is CureDebuffs <==> kind == 2
            &&& a is RemoveBless <==> kind == 5
            &&& a is Revive <==> dies && (kind == 3 || kind == 6 || (kind == 4 && oneself))
            &&& a is Failed <==> !dies && (kind == 3 || kind == 6 || (kind == 4 && oneself))
            &&& a is Ignored <==> kind == 4 && !oneself
            &&& a is Shown <==> kind <= 0 || kind >= 7
            &&& match a {
                Type5Action::Revive { fee, experience } => {
                    &&& kind != 3 ==> fee is None
                    &&& kind == 3 ==> fee == stone_fee(skill, row)
                    &&& row.exp_recover is Some && row.exp_recover->0 >= 0 ==> experience
                        == row.exp_recover->0
                    &&& row.exp_recover is Some && row.exp_recover->0 < 0 ==> experience == 0
                    &&& row.exp_recover is None && kind != 4 ==> experience == 50
                    &&& row.exp_recover is None && kind == 4 ==> experience == 30
                },
                _ => true,
            }
        }),
{
}

/// Who is back from the dead stands with all their health, with all their mana in zone 86 and
/// none elsewhere, and remembers no killer and no loss. Experience that was lost to no player
/// comes back at the percentage, rounded down, but for zone 86.
pub proof fn law_back_from_the_dead(c: Corpse, experience: i32)
    requires
        0 <= experience,
        0 <= c.lost_exp,
        c.lost_exp * experience <= i64::MAX,
    ensures
        ({
            let r = revival(c, experience);
            &&& r.res_hp_type == 1
            &&& r.hp == c.max_hp
            &&& c.zone_id == 86 ==> r.mp == c.max_mp && r.restored_exp == 0
            &&& c.zone_id != 86 ==> r.mp == 0
            &&& r.who_killed_me == -1
            &&& r.lost_exp == 0
            &&& c.who_killed_me != -1 ==> r.restored_exp == 0
            &&& c.zone_id != 86 && c.who_killed_me == -1 ==> 100 * r.restored_exp <= c.lost_exp
                * experience < 100 * r.restored_exp + 100
        }),
{
    assert(0 <= c.lost_exp * experience) by (nonlinear_arith)
        requires
            0 <= c.lost_exp,
            0 <= experience,
    ;
}

/// What comes of a cure: it is for the player below 10000 who is aimed at, and else for the
/// caster; a resurrection whose stones are not paid fails, and one that comes about brings the
/// dead back for the fee.
pub proof fn law_what_comes_of_cures(
    target_id: i32,
    skill: MagicRow,
    row: Option<MagicType5Row>,
    s: CureScene,
)
    ensures
        ({
            let sid = if 0 <= target_id <= 9999 {
                target_id as u16
            } else {
                s.caster_sid
            };
            let a = type5_action(skill, row, s.target, sid == s.caster_sid);
            match cure_outcome(target_id, skill, row, s) {
                CureOutcome::Failed => a is Failed || (a is Revive && a->fee is Some
                    && !s.fee_paid),
                CureOutcome::Ignored => a is Ignored,
                CureOutcome::CuredDots { sid: who } => who == sid && a is CureDots,
                CureOutcome::CuredDebuffs { sid: who } => who == sid && a is CureDebuffs,
                CureOutcome::LostBless { sid: who } => who == sid && a is RemoveBless,
                CureOutcome::Revived { sid: who, fee, revival: back } => {
                    &&& who == sid && a is Revive && fee == a->fee
                    &&& fee is None || s.fee_paid
                    &&& back == revival(s.corpse, a->experience)
                },
                CureOutcome::Shown => a is Shown,
            }
        }),
{
}

/// A cure that worked says so in its cast's second word, one that failed says why in the
/// fourth, and one that is ignored says nothing. Every other word stays.
pub proof fn law_cures_leave_their_words(opcode: u8, data: Seq<i32>, r: CureOutcome, i: int)
    requires
        data.len() == 7,
        0 <= i < 7,
    ensures
        ({
            let words = cure_words(opcode, data, r);
            &&& words.len() == 7
            &&& r is Failed && opcode == 1 ==> words[3] == -100
            &&& r is Failed && opcode != 1 ==> words[3] == -103
            &&& r is Failed && i != 3 ==> words[i] == data[i]
            &&& r is Ignored ==> words[i] == data[i]
            &&& !(r is Failed || r is Ignored) ==> words[1] == 1 && (i != 1 ==> words[i]
                == data[i])
        }),
{
}

/// What follows a resurrection: the player is seen, and effects over time end. Buffs begin anew
/// but in zones 85, 89 and 100. In a known zone in which players blink and that is not at war,
/// all but game masters and the transformed blink for 10 seconds. The three notices end stealth
/// and cure ailments 1 and 2.
pub proof fn law_after_a_resurrection(r: AfterRevival, p: RevivalPlace, now: u64)
    requires
        is_after_revival(r, p, now),
        now <= u64::MAX - 10,
    ensures
        r.invisibility_type == 0 && r.ends_effects_over_time,
        r.renews_buffs <==> p.zone_id != 85 && p.zone_id != 89 && p.zone_id != 100,
        match r.blinks_until {
            Some(t) => t - now == 10 && p.zone_known && p.blink_zone && !p.war_zone
                && !p.transformed && p.authority != Some(0u8),
            None => !p.zone_known || !p.blink_zone || p.war_zone || p.transformed || p.authority
                == Some(0u8),
        },
        r.notices@.len() == 3,
        r.notices@[0].opcode == 0x60 && r.notices@[0].data@.len() == 3 && r.notices@[0].data@[0]
            == 0,
        r.notices@[1].opcode == 0x5E && r.notices@[1].data@ == seq![2u8, 1u8, 0u8],
        r.notices@[2].opcode == 0x5E && r.notices@[2].data@ == seq![2u8, 2u8, 0u8],
{
}

} // verus!
