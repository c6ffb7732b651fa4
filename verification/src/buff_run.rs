//! Buffs and debuffs as a whole: from the cast and what it meets to what happens.

use crate::arith::{or_i16, or_i32};
use crate::buff::{buff_of_row, create_active_buff, ActiveBuff};
use crate::buff_cast::{
    all_fair, area_buff_outcomes, buff_of_cast, buff_words, check_friend_buff, debuff_npc,
    debuff_outcome, decide_area_buffs, decide_debuff, duration_secs, fair_rolls, friend_buff,
    mark_buff, mark_flash, mark_friendly_buff, mark_resisted, npc_debuff, party_grants,
    party_targets, persists, roll_all, roll_debuff_rolls, route_type4, saved_duration,
    should_persist_type4_magic, type4_route, AreaBuff, AreaBuffCast, AreaBuffPlayer, BuffSlots,
    Debuff, DebuffRolls, DebuffTarget, FriendBuff, FriendBuffState, NpcDebuff, PartyGrant,
    PartyMember, Type4Route,
};
use crate::constants::{MORAL_ENEMY, MORAL_SELF_AREA};
use crate::instance::{same_cast, MagicInstance};
use crate::spell_cast::friend_target;
use crate::strike::{failed_cast, lost_cast};
use crate::tables::{BuffKind, MagicRow, MagicType4Row};
use vstd::prelude::*;

verus! {

/// What a buff meets. Only what the cast is aimed at needs to be filled in.
#[derive(Debug)]
pub struct BuffScene {
    pub caster_sid: u16,
    pub caster_slots: BuffSlots,
    /// Whether the caster is there, and stands somewhere.
    pub caster_present: bool,
    pub caster_placed: bool,
    /// Whether a flash item could be used.
    pub flash_used: bool,
    /// The members of the caster's party, the caster among them.
    pub party: Vec<PartyMember>,
    pub friend: FriendBuffState,
    pub enemy: DebuffTarget,
    /// The caster's nation, and whether they stand in a safety area of the enemy.
    pub nation: u8,
    pub in_enemy_safety: bool,
    /// All who are near.
    pub players: Vec<AreaBuffPlayer>,
    /// Whether the caster blocks or reflects debuffs.
    pub caster_blocks: bool,
    /// The time in milliseconds.
    pub now: u64,
}

/// A buff that is granted, and how long it is saved for where it is.
#[derive(Clone, Copy, Debug, PartialEq, Eq, Structural)]
pub struct BuffGrant {
    pub buff: ActiveBuff,
    pub saved: Option<u16>,
}

/// What a buff does.
#[derive(Debug)]
pub enum BuffOutcome {
    /// Someone has left; nothing happens.
    Lost,
    /// The caster is told that the skill failed.
    Failed,
    /// There is no room for the buff, or it does not work on its target; nothing happens.
    Refused,
    /// The effect is shown and nothing happens.
    Shown,
    /// A flash item was used.
    Flash,
    Oneself(BuffGrant),
    Party { grant: BuffGrant, targets: Vec<PartyGrant> },
    Friend { sid: u16, grant: BuffGrant },
    Npc { npc_id: u32, buff_type: i32, duration_secs: u32 },
    /// The caster gets the debuff and is told that the skill failed.
    Reflected(ActiveBuff),
    Resisted,
    Enemy { sid: u16, buff: ActiveBuff },
    /// The caster's own buff, where the area is around them, and what becomes of everyone near.
    Area { grant: BuffGrant, on_caster: bool, players: Vec<AreaBuff> },
}

impl BuffOutcome {
    /// Whether the buff was carried out. One that is resisted was, one that is reflected was
    /// not.
    pub fn lands(&self) -> (r: bool)
        ensures
            r == !(self is Lost || self is Failed || self is Refused || self is Reflected),
    {
        match self {
            BuffOutcome::Lost | BuffOutcome::Failed | BuffOutcome::Refused => false,
            BuffOutcome::Reflected(_) => false,
            _ => true,
        }
    }
}

/// The buff that a cast grants.
pub open spec fn grant_of(
    m: MagicInstance,
    caster_sid: u16,
    skill: MagicRow,
    row: MagicType4Row,
    now: u64,
) -> BuffGrant {
    BuffGrant {
        buff: buff_of_row(m.skill_id, caster_sid, row, or_i16(skill.moral, 0) < MORAL_ENEMY, now),
        saved: if persists(skill, m.skill_id) {
            Some(duration_secs(row) as u16)
        } else {
            None
        },
    }
}

/// Work out the buff that a cast grants.
fn make_grant(
    m: &MagicInstance,
    caster_sid: u16,
    skill: &MagicRow,
    row: &MagicType4Row,
    now: u64,
) -> (r: BuffGrant)
    ensures
        r == grant_of(*m, caster_sid, *skill, *row, now),
{
    let saved: Option<u16> = if should_persist_type4_magic(skill, m.skill_id) {
        Some(saved_duration(row))
    } else {
        None
    };
    BuffGrant { buff: buff_of_cast(m, caster_sid, skill, row, now), saved }
}

/// Whether a cast shows a buff on oneself or friends.
pub open spec fn friendly_cast(
    after: MagicInstance,
    before: MagicInstance,
    row: MagicType4Row,
) -> bool {
    same_cast(after, before) && after.data@ == buff_words(
        before.data@,
        row,
        (duration_secs(row) as u16) as int,
    )
}

/// Whether a cast shows any other buff.
pub open spec fn buff_cast_shown(
    after: MagicInstance,
    before: MagicInstance,
    row: MagicType4Row,
) -> bool {
    same_cast(after, before) && after.data@ == buff_words(before.data@, row, duration_secs(row))
}

/// Whether an outcome is that of a debuff on a player.
pub open spec fn is_enemy_buff(
    r: BuffOutcome,
    sid: u16,
    after: MagicInstance,
    before: MagicInstance,
    skill: MagicRow,
    row: MagicType4Row,
    s: BuffScene,
    x: DebuffRolls,
) -> bool {
    match debuff_outcome(
        row.kind,
        before.skill_id,
        or_i16(skill.icelightrate, 0),
        s.enemy,
        x.curse,
        x.slow,
    ) {
        Debuff::Lost => r is Lost && lost_cast(after, before),
        Debuff::Failed => r is Failed && failed_cast(after, before),
        Debuff::Reflected => r == BuffOutcome::Reflected(
            buff_of_row(before.skill_id, s.caster_sid, row, false, s.now),
        ) && failed_cast(after, before),
        Debuff::Resisted => r is Resisted && same_cast(after, before) && after.data@
            == before.data@.update(1, 0),
        Debuff::Applied => r == BuffOutcome::Enemy {
            sid,
            buff: grant_of(before, s.caster_sid, skill, row, s.now).buff,
        } && buff_cast_shown(after, before, row),
    }
}

/// A buff on an area, of a cast of a skill.
pub open spec fn area_buff_of(
    skill_id: u32,
    skill: MagicRow,
    row: MagicType4Row,
    s: BuffScene,
) -> AreaBuffCast {
    AreaBuffCast {
        moral: or_i16(skill.moral, 0),
        skill_id,
        kind: row.kind,
        rate: or_i16(skill.icelightrate, 0),
        nation: s.nation,
        in_enemy_safety: s.in_enemy_safety,
    }
}

/// Whether an outcome is that of a buff on an area.
pub open spec fn is_area_buff(
    r: BuffOutcome,
    after: MagicInstance,
    before: MagicInstance,
    skill: MagicRow,
    row: MagicType4Row,
    s: BuffScene,
    rolls: Seq<DebuffRolls>,
) -> bool {
    match r {
        BuffOutcome::Lost => (!s.caster_placed || !s.caster_present) && lost_cast(after, before),
        BuffOutcome::Area { grant, on_caster, players } => {
            &&& s.caster_placed && s.caster_present
            &&& grant == grant_of(before, s.caster_sid, skill, row, s.now)
            &&& on_caster == (or_i16(skill.moral, 0) == MORAL_SELF_AREA)
            &&& players@ == area_buff_outcomes(
                area_buff_of(before.skill_id, skill, row, s),
                s.players@,
                s.caster_blocks,
                rolls,
            )
            &&& buff_cast_shown(after, before, row)
        },
        _ => false,
    }
}

/// Whether an outcome is that of a buff, for given rolls.
pub open spec fn is_buff_outcome(
    r: BuffOutcome,
    after: MagicInstance,
    before: MagicInstance,
    skill: MagicRow,
    row: Option<MagicType4Row>,
    s: BuffScene,
    x: DebuffRolls,
    rolls: Seq<DebuffRolls>,
) -> bool {
    let moral = or_i16(skill.moral, 0);
    match type4_route(row, moral, before.target_id) {
        Type4Route::Failed => r is Failed && failed_cast(after, before),
        Type4Route::Flash => if s.flash_used {
            r is Flash && same_cast(after, before) && after.data@ == before.data@.update(1, 1)
        } else {
            r is Failed && failed_cast(after, before)
        },
        Type4Route::Oneself => r == BuffOutcome::Oneself(
            grant_of(before, s.caster_sid, skill, row->0, s.now),
        ) && friendly_cast(after, before, row->0),
        Type4Route::Party => match r {
            BuffOutcome::Party { grant, targets } => {
                &&& grant == grant_of(before, s.caster_sid, skill, row->0, s.now)
                &&& targets@ == party_grants(s.party@, row->0, s.caster_sid, s.caster_slots)
                &&& friendly_cast(after, before, row->0)
            },
            _ => false,
        },
        Type4Route::Friend => match friend_buff(moral, row->0, s.friend) {
            FriendBuff::Failed => r is Failed && failed_cast(after, before),
            FriendBuff::Refused => r is Refused && lost_cast(after, before),
            FriendBuff::Granted => r == BuffOutcome::Friend {
                sid: if before.target_id < 0 {
                    s.caster_sid
                } else {
                    before.target_id as u16
                },
                grant: grant_of(before, s.caster_sid, skill, row->0, s.now),
            } && friendly_cast(after, before, row->0),
        },
        Type4Route::EnemyNpc { npc_id } => match npc_debuff(row->0) {
            NpcDebuff::Refused => r is Refused && lost_cast(after, before),
            NpcDebuff::Shown => r is Shown && buff_cast_shown(after, before, row->0),
            NpcDebuff::Applied { buff_type, duration_secs } => r == BuffOutcome::Npc {
                npc_id,
                buff_type,
                duration_secs,
            } && buff_cast_shown(after, before, row->0),
        },
        Type4Route::EnemyPlayer { sid } => is_enemy_buff(
            r,
            sid,
            after,
            before,
            skill,
            row->0,
            s,
            x,
        ),
        Type4Route::Area => is_area_buff(r, after, before, skill, row->0, s, rolls),
        Type4Route::Shown => r is Shown && buff_cast_shown(after, before, row->0),
    }
}

/// Carry out a buff or debuff for given rolls.
pub fn settle_type4(
    m: &mut MagicInstance,
    skill: &MagicRow,
    row: &Option<MagicType4Row>,
    s: &BuffScene,
    x: &DebuffRolls,
    rolls: &Vec<DebuffRolls>,
) -> (r: BuffOutcome)
    requires
        fair_rolls(*x),
        all_fair(rolls@, s.players@.len()),
    ensures
        is_buff_outcome(r, *final(m), *old(m), *skill, *row, *s, *x, rolls@),
{
    let moral: i16 = skill.moral.unwrap_or(0);
    let route: Type4Route = route_type4(row, moral, m.target_id);
    let row: MagicType4Row = match row {
        Some(d) => *d,
        None => {
            let _packet = m.send_skill_failed();
            return BuffOutcome::Failed;
        },
    };
    match route {
        Type4Route::Failed => {
            let _packet = m.send_skill_failed();
            BuffOutcome::Failed
        },
        Type4Route::Flash => {
            if !s.flash_used {
                let _packet = m.send_skill_failed();
                return BuffOutcome::Failed;
            }
            mark_flash(m);
            BuffOutcome::Flash
        },
        Type4Route::Oneself => {
            mark_friendly_buff(m, &row);
            BuffOutcome::Oneself(make_grant(m, s.caster_sid, skill, &row, s.now))
        },
        Type4Route::Party => {
            mark_friendly_buff(m, &row);
            let targets: Vec<PartyGrant> = party_targets(
                &s.party,
                &row,
                s.caster_sid,
                &s.caster_slots,
            );
            BuffOutcome::Party {
                grant: make_grant(m, s.caster_sid, skill, &row, s.now),
                targets,
            }
        },
        Type4Route::Friend => match check_friend_buff(moral, &row, &s.friend) {
            FriendBuff::Failed => {
                let _packet = m.send_skill_failed();
                BuffOutcome::Failed
            },
            FriendBuff::Refused => BuffOutcome::Refused,
            FriendBuff::Granted => {
                mark_friendly_buff(m, &row);
                BuffOutcome::Friend {
                    sid: friend_target(m.target_id, s.caster_sid),
                    grant: make_grant(m, s.caster_sid, skill, &row, s.now),
                }
            },
        },
        Type4Route::EnemyNpc { npc_id } => match debuff_npc(&row) {
            NpcDebuff::Refused => BuffOutcome::Refused,
            NpcDebuff::Shown => {
                mark_buff(m, &row);
                BuffOutcome::Shown
            },
            NpcDebuff::Applied { buff_type, duration_secs } => {
                mark_buff(m, &row);
                BuffOutcome::Npc { npc_id, buff_type, duration_secs }
            },
        },
        Type4Route::EnemyPlayer { sid } => {
            let outcome: Debuff = decide_debuff(
                row.kind,
                m.skill_id,
                skill.icelightrate.unwrap_or(0),
                &s.enemy,
                x.curse,
                x.slow,
            );
            match outcome {
                Debuff::Lost => BuffOutcome::Lost,
                Debuff::Failed => {
                    let _packet = m.send_skill_failed();
                    BuffOutcome::Failed
                },
                Debuff::Reflected => {
                    let _packet = m.send_skill_failed();
                    BuffOutcome::Reflected(
                        create_active_buff(m.skill_id, s.caster_sid, &row, false, s.now),
                    )
                },
                Debuff::Resisted => {
                    mark_resisted(m);
                    BuffOutcome::Resisted
                },
                Debuff::Applied => {
                    mark_buff(m, &row);
                    BuffOutcome::Enemy {
                        sid,
                        buff: buff_of_cast(m, s.caster_sid, skill, &row, s.now),
                    }
                },
            }
        },
        Type4Route::Area => {
            if !s.caster_placed || !s.caster_present {
                return BuffOutcome::Lost;
            }
            let area: AreaBuffCast = AreaBuffCast {
                moral,
                skill_id: m.skill_id,
                kind: row.kind,
                rate: skill.icelightrate.unwrap_or(0),
                nation: s.nation,
                in_enemy_safety: s.in_enemy_safety,
            };
            let players: Vec<AreaBuff> = decide_area_buffs(
                &area,
                &s.players,
                s.caster_blocks,
                rolls,
            );
            mark_buff(m, &row);
            BuffOutcome::Area {
                grant: make_grant(m, s.caster_sid, skill, &row, s.now),
                on_caster: moral == MORAL_SELF_AREA,
                players,
            }
        },
        Type4Route::Shown => {
            mark_buff(m, &row);
            BuffOutcome::Shown
        },
    }
}

/// Carry out a buff or debuff.
pub fn execute_type4(
    m: &mut MagicInstance,
    skill: &MagicRow,
    row: &Option<MagicType4Row>,
    s: &BuffScene,
) -> (r: BuffOutcome)
    ensures
        exists|x: DebuffRolls, rolls: Seq<DebuffRolls>| #[trigger]
            fair_rolls(x) && #[trigger] all_fair(rolls, s.players@.len()) && is_buff_outcome(
                r,
                *final(m),
                *old(m),
                *skill,
                *row,
                *s,
                x,
                rolls,
            ),
{
    let x: DebuffRolls = roll_debuff_rolls();
    let rolls: Vec<DebuffRolls> = roll_all(s.players.len());
    settle_type4(m, skill, row, s, &x, &rolls)
}

/// What a cast grants: a buff of the skill, from the caster and from now on, for the row's
/// duration; a help below moral 7 and a harm from there on. Buffs that outlast a logout are
/// saved for that duration.
pub proof fn law_what_casts_grant(
    m: MagicInstance,
    caster_sid: u16,
    skill: MagicRow,
    row: MagicType4Row,
    now: u64,
)
    requires
        0 <= or_i32(row.duration, 0) <= 65535,
    ensures
        ({
            let g = grant_of(m, caster_sid, skill, row, now);
            let moral = or_i16(skill.moral, 0);
            &&& g.buff.skill_id == m.skill_id
            &&& g.buff.caster_sid == caster_sid
            &&& g.buff.start_time == now
            &&& g.buff.duration_secs == or_i32(row.duration, 0)
            &&& g.buff.buff_type == or_i32(row.buff_type, 0)
            &&& g.buff.is_buff <==> moral <= 6
            &&& g.buff == buff_of_row(m.skill_id, caster_sid, row, moral <= 6, now)
            &&& persists(skill, m.skill_id) ==> g.saved == Some(or_i32(row.duration, 0) as u16)
            &&& !persists(skill, m.skill_id) ==> g.saved is None
        }),
{
}

/// What a buff's cast says: that it worked in its second word, its duration in its fourth, and
/// its speed in its sixth; a failed one says why in its fourth alone, a resisted one that it did
/// not work in its second, and the others nothing. Every other word stays.
pub proof fn law_buffs_leave_their_words(
    r: BuffOutcome,
    after: MagicInstance,
    before: MagicInstance,
    skill: MagicRow,
    row: Option<MagicType4Row>,
    s: BuffScene,
    x: DebuffRolls,
    rolls: Seq<DebuffRolls>,
    i: int,
)
    requires
        is_buff_outcome(r, after, before, skill, row, s, x, rolls),
        0 <= i < 7,
        row is Some ==> 0 <= or_i32(row->0.duration, 0) <= 65535,
    ensures
        after.opcode == before.opcode && after.skill_id == before.skill_id,
        after.caster_id == before.caster_id && after.target_id == before.target_id,
        i != 1 && i != 3 && i != 5 ==> after.data@[i] == before.data@[i],
        r is Failed || r is Reflected ==> {
            &&& before.opcode == 1 ==> after.data@[3] == -100
            &&& before.opcode != 1 ==> after.data@[3] == -103
            &&& i != 3 ==> after.data@[i] == before.data@[i]
        },
        r is Lost || r is Refused ==> after.data@[i] == before.data@[i],
        r is Resisted ==> after.data@[1] == 0 && (i != 1 ==> after.data@[i] == before.data@[i]),
        r is Flash ==> after.data@[1] == 1 && (i != 1 ==> after.data@[i] == before.data@[i]),
        r is Shown || r is Oneself || r is Party || r is Friend || r is Npc || r is Enemy
            || r is Area ==> {
            &&& after.data@[1] == 1
            &&& after.data@[3] == or_i32(row->0.duration, 0)
            &&& after.data@[5] == or_i32(row->0.speed, 0)
        },
{
}

/// Whom a buff is for, by its moral: 1 is for the caster, 6 without a target for the party,
/// 2, 3, 4 and 6 for a friend, 7 for one enemy, 10 to 13 for an area, and others are shown; a
/// flash item comes before all of these, and a skill without a row fails.
pub proof fn law_buffs_go_where_their_moral_says(
    r: BuffOutcome,
    after: MagicInstance,
    before: MagicInstance,
    skill: MagicRow,
    row: Option<MagicType4Row>,
    s: BuffScene,
    x: DebuffRolls,
    rolls: Seq<DebuffRolls>,
)
    requires
        is_buff_outcome(r, after, before, skill, row, s, x, rolls),
    ensures
        ({
            let moral = or_i16(skill.moral, 0);
            let t = before.target_id;
            let flash = row is Some && row->0.kind == BuffKind::Fishing;
            let plain = row is Some && !flash;
            let grant = grant_of(before, s.caster_sid, skill, row->0, s.now);
            &&& row is None ==> r is Failed
            &&& flash && s.flash_used ==> r is Flash
            &&& flash && !s.flash_used ==> r is Failed
            &&& plain && moral == 1 ==> r == BuffOutcome::Oneself(grant)
            &&& plain && moral == 6 && t < 0 ==> match r {
                BuffOutcome::Party { grant: g, targets } => g == grant && targets@
                    == party_grants(s.party@, row->0, s.caster_sid, s.caster_slots),
                _ => false,
            }
            &&& plain && (2 <= moral <= 4 || (moral == 6 && t >= 0)) ==> {
                let out = friend_buff(moral, row->0, s.friend);
                &&& r is Failed <==> out is Failed
                &&& r is Refused <==> out is Refused
                &&& out is Granted && 0 <= t <= 65535 ==> r == (BuffOutcome::Friend {
                    sid: t as u16,
                    grant,
                })
                &&& out is Granted && t < 0 ==> r == (BuffOutcome::Friend {
                    sid: s.caster_sid,
                    grant,
                })
            }
            &&& plain && moral == 7 && t < 0 ==> r is Failed
            &&& plain && moral == 7 && t >= 10000 ==> match r {
                BuffOutcome::Npc { npc_id, buff_type, duration_secs } => {
                    &&& npc_id == t
                    &&& !(row->0.kind is Freeze)
                    &&& buff_type == or_i32(row->0.buff_type, 0) && buff_type > 0
                    &&& or_i32(row->0.duration, 0) >= 0 ==> duration_secs == or_i32(
                        row->0.duration,
                        0,
                    )
                },
                BuffOutcome::Refused => row->0.kind is Freeze,
                BuffOutcome::Shown => !(row->0.kind is Freeze) && or_i32(row->0.buff_type, 0) <= 0,
                _ => false,
            }
            &&& plain && 10 <= moral <= 13 ==> (r is Area <==> s.caster_placed
                && s.caster_present) && (r is Area || r is Lost)
            &&& plain && (moral <= 0 || moral == 5 || moral == 8 || moral == 9 || moral >= 14)
                ==> r is Shown
        }),
{
    if row is Some {
        crate::buff_cast::law_where_buffs_go(
            row->0,
            or_i16(skill.moral, 0),
            before.target_id,
        );
        crate::buff_cast::law_debuffs_on_npcs(row->0);
    }
}

/// What becomes of a debuff on one player: it is theirs, from the caster; where it is reflected
/// it is the caster's own, as a harm. The skill's rate decides how well it is warded off.
pub proof fn law_debuffs_on_one_player(
    r: BuffOutcome,
    after: MagicInstance,
    before: MagicInstance,
    skill: MagicRow,
    row: MagicType4Row,
    s: BuffScene,
    x: DebuffRolls,
    rolls: Seq<DebuffRolls>,
)
    requires
        is_buff_outcome(r, after, before, skill, Some(row), s, x, rolls),
        or_i16(skill.moral, 0) == 7,
        0 <= before.target_id <= 9999,
        row.kind != BuffKind::Fishing,
    ensures
        ({
            let out = debuff_outcome(
                row.kind,
                before.skill_id,
                or_i16(skill.icelightrate, 0),
                s.enemy,
                x.curse,
                x.slow,
            );
            &&& r is Lost <==> out is Lost
            &&& r is Failed <==> out is Failed
            &&& r is Resisted <==> out is Resisted
            &&& r is Reflected <==> out is Reflected
            &&& r is Enemy <==> out is Applied
            &&& match r {
                BuffOutcome::Reflected(b) => !b.is_buff && b == buff_of_row(
                    before.skill_id,
                    s.caster_sid,
                    row,
                    false,
                    s.now,
                ),
                BuffOutcome::Enemy { sid, buff } => sid == before.target_id && !buff.is_buff
                    && buff == buff_of_row(before.skill_id, s.caster_sid, row, false, s.now),
                _ => true,
            }
        }),
{
    crate::buff_cast::law_where_buffs_go(row, 7, before.target_id);
}

/// A buff on an area is worked out for the skill's number, moral and rate, the row's kind, and
/// the caster's nation and place. It is on the caster, too, at moral 13 alone.
pub proof fn law_buffs_on_areas(
    r: BuffOutcome,
    after: MagicInstance,
    before: MagicInstance,
    skill: MagicRow,
    row: Option<MagicType4Row>,
    s: BuffScene,
    x: DebuffRolls,
    rolls: Seq<DebuffRolls>,
    c: AreaBuffCast,
)
    requires
        is_buff_outcome(r, after, before, skill, row, s, x, rolls),
        r is Area,
        c.moral == or_i16(skill.moral, 0),
        c.skill_id == before.skill_id,
        row is Some ==> c.kind == row->0.kind,
        c.rate == or_i16(skill.icelightrate, 0),
        c.nation == s.nation,
        c.in_enemy_safety == s.in_enemy_safety,
    ensures
        row is Some,
        match r {
            BuffOutcome::Area { grant, on_caster, players } => {
                &&& grant == grant_of(before, s.caster_sid, skill, row->0, s.now)
                &&& on_caster == (or_i16(skill.moral, 0) == 13)
                &&& players@ == area_buff_outcomes(c, s.players@, s.caster_blocks, rolls)
            },
            _ => false,
        },
{
    if row is Some {
        assert(c == area_buff_of(before.skill_id, skill, row->0, s));
    }
}

} // verus!
