//! Casting buffs and debuffs: on oneself, on friends and parties, on an enemy, and on an area.

use crate::arith::{max_of, min_of, or_i16, or_i32, tdiv};
use crate::buff::{buff_of_row, create_active_buff, ActiveBuff};
use crate::cast::{dead, is_dead};
use crate::constants::{
    AUTHORITY_GM, MAGIC_EFFECTING, MORAL_AREA_ALL, MORAL_AREA_ENEMY, MORAL_AREA_FRIEND,
    MORAL_ENEMY, MORAL_FRIEND_EXCEPTME, MORAL_FRIEND_WITHME, MORAL_PARTY, MORAL_PARTY_ALL,
    MORAL_SELF, MORAL_SELF_AREA, NPC_BAND, WIZ_MAGIC_PROCESS,
};
use crate::instance::{same_cast, skill_payload, MagicInstance};
use crate::packet::{u32_at_front, Packet};
use crate::random::roll;
use crate::skills::{is_resistance_bypass_skill, resistance_bypass_skill};
use crate::tables::{BuffKind, MagicRow, MagicType4Row};
use vstd::prelude::*;

verus! {

/// Whether a buff outlasts a logout: those of custom skills, and those of items.
pub open spec fn persists(skill: MagicRow, skill_id: u32) -> bool {
    skill_id > 500000 || (skill.type1 == Some(4i16) && (skill.item_group == Some(9i16)
        || skill.item_group == Some(255i16)) && or_i32(skill.use_item, 0) > 0)
}

/// Whether a buff outlasts a logout.
pub fn should_persist_type4_magic(skill: &MagicRow, skill_id: u32) -> (r: bool)
    ensures
        r == persists(*skill, skill_id),
{
    let buff: bool = match skill.type1 {
        Some(t) => t == 4,
        None => false,
    };
    let item: bool = match skill.item_group {
        Some(g) => g == 9 || g == 255,
        None => false,
    };
    skill_id > 500000 || (buff && item && skill.use_item.unwrap_or(0) > 0)
}

/// A row's duration in seconds, never negative.
pub open spec fn duration_secs(row: MagicType4Row) -> int {
    max_of(or_i32(row.duration, 0) as int, 0)
}

/// A row's duration as it is saved: its low 16 bits.
pub fn saved_duration(row: &MagicType4Row) -> (r: u16)
    ensures
        r == duration_secs(*row) as u16,
{
    row.duration.unwrap_or(0).max(0) as u16
}

/// Where a buff goes.
#[derive(Clone, Copy, Debug, PartialEq, Eq, Structural)]
pub enum Type4Route {
    /// The caster is told that the skill failed.
    Failed,
    /// A flash item: it is used up on the spot.
    Flash,
    Oneself,
    /// All members of the caster's party.
    Party,
    Friend,
    EnemyNpc { npc_id: u32 },
    EnemyPlayer { sid: u16 },
    Area,
    /// The effect is shown and nothing happens.
    Shown,
}

/// Where a buff goes.
pub open spec fn type4_route(row: Option<MagicType4Row>, moral: i16, target_id: i32) -> Type4Route {
    if row is None {
        Type4Route::Failed
    } else if row->0.kind == BuffKind::Fishing {
        Type4Route::Flash
    } else if moral == MORAL_SELF {
        Type4Route::Oneself
    } else if moral == MORAL_PARTY_ALL && target_id < 0 {
        Type4Route::Party
    } else if moral == MORAL_FRIEND_WITHME || moral == MORAL_FRIEND_EXCEPTME || moral
        == MORAL_PARTY || moral == MORAL_PARTY_ALL {
        Type4Route::Friend
    } else if moral == MORAL_ENEMY {
        if target_id < 0 {
            Type4Route::Failed
        } else if target_id < NPC_BAND {
            Type4Route::EnemyPlayer { sid: target_id as u16 }
        } else {
            Type4Route::EnemyNpc { npc_id: target_id as u32 }
        }
    } else if moral == MORAL_AREA_ENEMY || moral == MORAL_AREA_FRIEND || moral == MORAL_AREA_ALL
        || moral == MORAL_SELF_AREA {
        Type4Route::Area
    } else {
        Type4Route::Shown
    }
}

/// Find out where a buff goes.
pub fn route_type4(row: &Option<MagicType4Row>, moral: i16, target_id: i32) -> (r: Type4Route)
    ensures
        r == type4_route(*row, moral, target_id),
{
    let kind: BuffKind = match row {
        Some(d) => d.kind,
        None => {
            return Type4Route::Failed;
        },
    };
    if kind == BuffKind::Fishing {
        Type4Route::Flash
    } else if moral == MORAL_SELF {
        Type4Route::Oneself
    } else if moral == MORAL_PARTY_ALL && target_id < 0 {
        Type4Route::Party
    } else if moral == MORAL_FRIEND_WITHME || moral == MORAL_FRIEND_EXCEPTME || moral
        == MORAL_PARTY || moral == MORAL_PARTY_ALL {
        Type4Route::Friend
    } else if moral == MORAL_ENEMY {
        if target_id < 0 {
            Type4Route::Failed
        } else if (target_id as u32) < NPC_BAND {
            Type4Route::EnemyPlayer { sid: target_id as u16 }
        } else {
            Type4Route::EnemyNpc { npc_id: target_id as u32 }
        }
    } else if moral == MORAL_AREA_ENEMY || moral == MORAL_AREA_FRIEND || moral == MORAL_AREA_ALL
        || moral == MORAL_SELF_AREA {
        Type4Route::Area
    } else {
        Type4Route::Shown
    }
}

/// The cast of a buff as it is shown: that it worked, its duration and its speed.
pub open spec fn buff_words(data: Seq<i32>, row: MagicType4Row, duration: int) -> Seq<i32> {
    data.update(1, 1).update(3, duration as i32).update(5, or_i32(row.speed, 0))
}

/// Note a buff on oneself or on friends in its cast. The duration is shown as it is saved.
pub fn mark_friendly_buff(m: &mut MagicInstance, row: &MagicType4Row)
    ensures
        same_cast(*final(m), *old(m)),
        final(m).data@ == buff_words(old(m).data@, *row, (duration_secs(*row) as u16) as int),
{
    m.data[1] = 1;
    m.data[3] = saved_duration(row) as i32;
    m.data[5] = row.speed.unwrap_or(0);
}

/// Note any other buff in its cast.
pub fn mark_buff(m: &mut MagicInstance, row: &MagicType4Row)
    ensures
        same_cast(*final(m), *old(m)),
        final(m).data@ == buff_words(old(m).data@, *row, duration_secs(*row)),
{
    m.data[1] = 1;
    m.data[3] = row.duration.unwrap_or(0).max(0);
    m.data[5] = row.speed.unwrap_or(0);
}

/// Note the use of a flash item in its cast.
pub fn mark_flash(m: &mut MagicInstance)
    ensures
        same_cast(*final(m), *old(m)),
        final(m).data@ == old(m).data@.update(1, 1),
{
    m.data[1] = 1;
}

/// Note in its cast that a debuff was resisted.
pub fn mark_resisted(m: &mut MagicInstance)
    ensures
        same_cast(*final(m), *old(m)),
        final(m).data@ == old(m).data@.update(1, 0),
{
    m.data[1] = 0;
}

/// The buff of a cast: one of the helpful kind unless it was aimed at enemies.
pub fn buff_of_cast(
    m: &MagicInstance,
    caster_sid: u16,
    skill: &MagicRow,
    row: &MagicType4Row,
    now: u64,
) -> (r: ActiveBuff)
    ensures
        r == buff_of_row(
            m.skill_id,
            caster_sid,
            *row,
            or_i16(skill.moral, 0) < MORAL_ENEMY,
            now,
        ),
{
    create_active_buff(m.skill_id, caster_sid, row, skill.moral.unwrap_or(0) < MORAL_ENEMY, now)
}

// ---------------------------------------------------------------------------------------------
// Friends
// ---------------------------------------------------------------------------------------------

/// The buffs that a player has of the kinds that exclude a new one.
#[derive(Clone, Copy, Debug)]
pub struct BuffSlots {
    pub has_speed: bool,
    pub has_speed2: bool,
    /// Whether the player has a buff of the same type.
    pub has_same: bool,
}

/// Whether a player's buffs leave room for a new one: the two speed buffs exclude each other,
/// and no type is there twice. Rows without a type always find room.
pub open spec fn has_room(row: MagicType4Row, slots: BuffSlots) -> bool {
    &&& !(row.kind == BuffKind::Speed && slots.has_speed2)
    &&& !(row.kind == BuffKind::Speed2 && slots.has_speed)
    &&& !(or_i32(row.buff_type, 0) > 0 && slots.has_same)
}

/// Check whether a player's buffs leave room for a new one, as everyone does who grants it.
pub fn grant_type4_buff_to_target(row: &MagicType4Row, slots: &BuffSlots) -> (r: bool)
    ensures
        r == has_room(*row, *slots),
{
    if row.kind == BuffKind::Speed && slots.has_speed2 {
        return false;
    }
    if row.kind == BuffKind::Speed2 && slots.has_speed {
        return false;
    }
    !(row.buff_type.unwrap_or(0) > 0 && slots.has_same)
}

/// A friend who gets a buff.
#[derive(Clone, Copy, Debug)]
pub struct FriendBuffState {
    /// State and health; `None` where the friend is not there.
    pub state: Option<(u8, i16)>,
    /// Whether the friend is the caster.
    pub oneself: bool,
    pub caster_party: Option<u16>,
    pub target_party: Option<u16>,
    pub in_range: bool,
    pub slots: BuffSlots,
}

/// What becomes of a buff on a friend.
#[derive(Clone, Copy, Debug, PartialEq, Eq, Structural)]
pub enum FriendBuff {
    /// The caster is told that the skill failed.
    Failed,
    /// The friend has no room for it; nothing happens.
    Refused,
    Granted,
}

/// Whether a party buff reaches members of the caster's party at any distance.
pub open spec fn party_reach(moral: i16, s: FriendBuffState) -> bool {
    (moral == MORAL_PARTY || moral == MORAL_PARTY_ALL) && s.caster_party is Some
        && s.caster_party == s.target_party
}

/// What becomes of a buff on a friend.
pub open spec fn friend_buff(moral: i16, row: MagicType4Row, s: FriendBuffState) -> FriendBuff {
    match s.state {
        None => FriendBuff::Failed,
        Some((res, hp)) => if dead(res, hp) || (!s.oneself && !party_reach(moral, s)
            && !s.in_range) {
            FriendBuff::Failed
        } else if !has_room(row, s.slots) {
            FriendBuff::Refused
        } else {
            FriendBuff::Granted
        },
    }
}

/// Check a buff on a friend.
pub fn check_friend_buff(moral: i16, row: &MagicType4Row, s: &FriendBuffState) -> (r: FriendBuff)
    ensures
        r == friend_buff(moral, *row, *s),
{
    match s.state {
        None => {
            return FriendBuff::Failed;
        },
        Some((res, hp)) => {
            if is_dead(res, hp) {
                return FriendBuff::Failed;
            }
        },
    }
    if !s.oneself {
        let same_party: bool = match (s.caster_party, s.target_party) {
            (Some(a), Some(b)) => a == b,
            _ => false,
        };
        let reach: bool = (moral == MORAL_PARTY || moral == MORAL_PARTY_ALL) && same_party;
        if !reach && !s.in_range {
            return FriendBuff::Failed;
        }
    }
    if grant_type4_buff_to_target(row, &s.slots) {
        FriendBuff::Granted
    } else {
        FriendBuff::Refused
    }
}

/// A member of the caster's party.
#[derive(Clone, Copy, Debug)]
pub struct PartyMember {
    pub sid: u16,
    pub dead: bool,
    /// Whether the positions of caster and member are known, and what they say.
    pub placed: bool,
    pub same_zone: bool,
    pub in_radius: bool,
    pub slots: BuffSlots,
}

/// A target of a party buff, and whether it has room for the buff.
#[derive(Clone, Copy, Debug, PartialEq, Eq, Structural)]
pub struct PartyGrant {
    pub sid: u16,
    pub granted: bool,
}

/// Whether a party buff reaches a member: the living within its radius. A radius that is not
/// positive reaches everyone, and so does a position that is not known.
pub open spec fn reached(p: PartyMember, caster_sid: u16, radius: i32) -> bool {
    !p.dead && (p.sid == caster_sid || radius <= 0 || !p.placed || (p.same_zone && p.in_radius))
}

/// The members that a party buff reaches, in order.
pub open spec fn reached_members(
    members: Seq<PartyMember>,
    row: MagicType4Row,
    caster_sid: u16,
) -> Seq<PartyGrant>
    decreases members.len(),
{
    if members.len() == 0 {
        Seq::empty()
    } else {
        let rest = reached_members(members.drop_last(), row, caster_sid);
        let p = members.last();
        if reached(p, caster_sid, or_i32(row.radius, 0)) {
            rest.push(PartyGrant { sid: p.sid, granted: has_room(row, p.slots) })
        } else {
            rest
        }
    }
}

/// Whom a party buff is aimed at: the members it reaches, or else the caster.
pub open spec fn party_grants(
    members: Seq<PartyMember>,
    row: MagicType4Row,
    caster_sid: u16,
    caster_slots: BuffSlots,
) -> Seq<PartyGrant> {
    let reached = reached_members(members, row, caster_sid);
    if reached.len() == 0 {
        seq![PartyGrant { sid: caster_sid, granted: has_room(row, caster_slots) }]
    } else {
        reached
    }
}

/// Find out whom a party buff is aimed at.
pub fn party_targets(
    members: &Vec<PartyMember>,
    row: &MagicType4Row,
    caster_sid: u16,
    caster_slots: &BuffSlots,
) -> (r: Vec<PartyGrant>)
    ensures
        r@ == party_grants(members@, *row, caster_sid, *caster_slots),
{
    let radius: i32 = row.radius.unwrap_or(0);
    let mut targets: Vec<PartyGrant> = Vec::new();
    let mut i: usize = 0;
    while i < members.len()
        invariant
            i <= members.len(),
            radius == or_i32(row.radius, 0),
            targets@ == reached_members(members@.take(i as int), *row, caster_sid),
        decreases members.len() - i,
    {
        let p: PartyMember = members[i];
        assert(members@.take(i + 1).drop_last() =~= members@.take(i as int));
        if !p.dead && (p.sid == caster_sid || radius <= 0 || !p.placed || (p.same_zone
            && p.in_radius)) {
            let granted: bool = grant_type4_buff_to_target(row, &p.slots);
            targets.push(PartyGrant { sid: p.sid, granted });
        }
        i += 1;
    }
    assert(members@.take(members@.len() as int) =~= members@);
    if targets.len() == 0 {
        let granted: bool = grant_type4_buff_to_target(row, caster_slots);
        targets.push(PartyGrant { sid: caster_sid, granted });
        assert(targets@ =~= party_grants(members@, *row, caster_sid, *caster_slots));
    }
    targets
}

/// Payload of a party buff's cast for one of its targets.
pub open spec fn party_buff_payload(m: MagicInstance, target_sid: u16) -> Seq<u8> {
    skill_payload(MAGIC_EFFECTING, m.skill_id, m.caster_id, target_sid as i32, m.data@)
}

/// The cast of a party buff as it is shown for one of its targets.
pub fn build_party_buff(m: &MagicInstance, target_sid: u16) -> (p: Packet)
    ensures
        p.opcode == WIZ_MAGIC_PROCESS,
        p.data@ == party_buff_payload(*m, target_sid),
        p.opcode == 0x31,
{
    let shown: MagicInstance = MagicInstance {
        opcode: m.opcode,
        skill_id: m.skill_id,
        caster_id: m.caster_id,
        target_id: target_sid as i32,
        data: m.data,
    };
    shown.build_packet(MAGIC_EFFECTING)
}

// ---------------------------------------------------------------------------------------------
// Support by bots and NPCs
// ---------------------------------------------------------------------------------------------

/// Whether a bot can grant a buff.
pub open spec fn bot_supports(
    skill_known: bool,
    row: Option<MagicType4Row>,
    has_same: bool,
    target_dead: bool,
) -> bool {
    skill_known && row is Some && !(or_i32(row->0.buff_type, 0) > 0 && has_same) && !target_dead
}

/// Whether a bot can grant a buff to a player: the skill is known, the player lives, and has
/// no buff of the same type.
pub fn apply_bot_type4_support(
    skill_known: bool,
    row: &Option<MagicType4Row>,
    has_same: bool,
    target_dead: bool,
) -> (r: bool)
    ensures
        r == bot_supports(skill_known, *row, has_same, target_dead),
{
    match row {
        Some(d) => skill_known && !(d.buff_type.unwrap_or(0) > 0 && has_same) && !target_dead,
        None => false,
    }
}

/// Whether an NPC can grant a buff.
pub open spec fn npc_supports(
    skill_known: bool,
    row: Option<MagicType4Row>,
    target_dead: bool,
) -> bool {
    skill_known && row is Some && !target_dead
}

/// Whether an NPC can grant a buff to a player: the skill is known and the player lives.
pub fn apply_npc_type4_support(
    skill_known: bool,
    row: &Option<MagicType4Row>,
    target_dead: bool,
) -> (r: bool)
    ensures
        r == npc_supports(skill_known, *row, target_dead),
{
    match row {
        Some(_) => skill_known && !target_dead,
        None => false,
    }
}

/// The data words of a buff that a bot or an NPC grants.
pub open spec fn support_words(row: MagicType4Row) -> Seq<i32> {
    seq![
        0i32,
        1i32,
        0i32,
        (duration_secs(row) as u16) as i32,
        0i32,
        or_i32(row.speed, 0),
        0i32,
    ]
}

/// Payload of the cast of a buff that a bot or an NPC grants.
pub open spec fn support_payload(
    caster_id: u32,
    target_sid: u16,
    skill_id: u32,
    row: MagicType4Row,
) -> Seq<u8> {
    skill_payload(
        MAGIC_EFFECTING,
        skill_id,
        caster_id as i32,
        target_sid as i32,
        support_words(row),
    )
}

/// The cast of a buff that a bot or an NPC grants, as it is shown.
pub fn build_support(caster_id: u32, target_sid: u16, skill_id: u32, row: &MagicType4Row) -> (p:
    Packet)
    ensures
        p.opcode == WIZ_MAGIC_PROCESS,
        p.data@ == support_payload(caster_id, target_sid, skill_id, *row),
        p.opcode == 0x31,
{
    let data: [i32; 7] = [
        0,
        1,
        0,
        saved_duration(row) as i32,
        0,
        row.speed.unwrap_or(0),
        0,
    ];
    assert(data@ =~= support_words(*row));
    let shown: MagicInstance = MagicInstance {
        opcode: MAGIC_EFFECTING,
        skill_id,
        caster_id: caster_id as i32,
        target_id: target_sid as i32,
        data,
    };
    shown.build_packet(MAGIC_EFFECTING)
}

// ---------------------------------------------------------------------------------------------
// Enemies
// ---------------------------------------------------------------------------------------------

/// A debuff on an NPC.
#[derive(Clone, Copy, Debug, PartialEq, Eq, Structural)]
pub enum NpcDebuff {
    /// NPCs cannot be frozen; nothing happens.
    Refused,
    /// The row has no type: the effect is shown.
    Shown,
    Applied { buff_type: i32, duration_secs: u32 },
}

/// What a debuff does to an NPC.
pub open spec fn npc_debuff(row: MagicType4Row) -> NpcDebuff {
    if row.kind == BuffKind::Freeze {
        NpcDebuff::Refused
    } else if or_i32(row.buff_type, 0) > 0 {
        NpcDebuff::Applied {
            buff_type: or_i32(row.buff_type, 0),
            duration_secs: duration_secs(row) as u32,
        }
    } else {
        NpcDebuff::Shown
    }
}

/// Find out what a debuff does to an NPC.
pub fn debuff_npc(row: &MagicType4Row) -> (r: NpcDebuff)
    ensures
        r == npc_debuff(*row),
{
    if row.kind == BuffKind::Freeze {
        return NpcDebuff::Refused;
    }
    let buff_type: i32 = row.buff_type.unwrap_or(0);
    if buff_type > 0 {
        NpcDebuff::Applied { buff_type, duration_secs: row.duration.unwrap_or(0).max(0) as u32 }
    } else {
        NpcDebuff::Shown
    }
}

/// How a player withstands debuffs.
#[derive(Clone, Copy, Debug)]
pub struct CurseGuard {
    pub blocks_curses: bool,
    pub reflects_curses: bool,
    pub cold_r: i16,
    pub lightning_r: i16,
    pub resistance_bonus: i16,
}

/// Rolls below this, of 0 to 999, reflect a debuff.
pub const REFLECT_LIMIT: i32 = 250;

/// No more resistance than this counts against slowing.
pub const SLOW_RESIST_MAX: i32 = 250;

/// Kinds that ice and lightning resistance can ward off.
pub open spec fn slowing(kind: BuffKind) -> bool {
    kind == BuffKind::Speed || kind == BuffKind::Speed2 || kind == BuffKind::Stun
}

/// A player's resistance to a slowing debuff, in percent of the most that counts.
pub open spec fn slow_resistance(kind: BuffKind, g: CurseGuard) -> int {
    let of_items = if kind == BuffKind::Speed2 {
        g.cold_r
    } else {
        g.lightning_r
    };
    tdiv(min_of(of_items + g.resistance_bonus, SLOW_RESIST_MAX as int) * 100, SLOW_RESIST_MAX as int)
}

/// Whether a slowing debuff is warded off for a roll of 0 to 10000. A skill whose rate is not
/// positive never slows; some skills always do.
pub open spec fn slow_resisted(
    kind: BuffKind,
    skill_id: u32,
    rate: i16,
    g: CurseGuard,
    roll: i32,
) -> bool {
    slowing(kind) && !resistance_bypass_skill(skill_id) && (rate <= 0 || rate <= roll
        + slow_resistance(kind, g) * 3)
}

/// Check whether a slowing debuff is warded off.
pub fn resists_slow(
    kind: BuffKind,
    skill_id: u32,
    rate: i16,
    g: &CurseGuard,
    roll: i32,
) -> (r: bool)
    requires
        0 <= roll <= 10000,
    ensures
        r == slow_resisted(kind, skill_id, rate, *g, roll),
{
    let slows: bool = kind == BuffKind::Speed || kind == BuffKind::Speed2 || kind
        == BuffKind::Stun;
    if !slows || is_resistance_bypass_skill(skill_id) {
        return false;
    }
    let of_items: i32 = if kind == BuffKind::Speed2 {
        g.cold_r as i32
    } else {
        g.lightning_r as i32
    };
    let capped: i32 = (of_items + g.resistance_bonus as i32).min(SLOW_RESIST_MAX);
    let percent: i32 = capped * 100 / SLOW_RESIST_MAX;
    rate <= 0 || rate as i32 <= roll + percent * 3
}

/// A player whom a debuff is aimed at.
#[derive(Clone, Copy, Debug)]
pub struct DebuffTarget {
    /// State and health; `None` where the player is not there.
    pub state: Option<(u8, i16)>,
    pub blinking: bool,
    pub in_range: bool,
    pub caster_present: bool,
    pub hostile: bool,
    pub guard: CurseGuard,
    /// Whether the caster blocks or reflects debuffs.
    pub caster_blocks: bool,
}

/// What becomes of a debuff.
#[derive(Clone, Copy, Debug, PartialEq, Eq, Structural)]
pub enum Debuff {
    /// Someone has left; nothing happens.
    Lost,
    /// The caster is told that the skill failed.
    Failed,
    /// The caster gets the debuff and is told that the skill failed.
    Reflected,
    /// The skill is shown without effect.
    Resisted,
    Applied,
}

/// What becomes of a debuff for two rolls: of 0 to 999 for reflecting, and of 0 to 10000 for
/// slowing.
pub open spec fn debuff_outcome(
    kind: BuffKind,
    skill_id: u32,
    rate: i16,
    t: DebuffTarget,
    curse_roll: i32,
    slow_roll: i32,
) -> Debuff {
    match t.state {
        None => Debuff::Lost,
        Some((res, hp)) => if dead(res, hp) || t.blinking || !t.in_range {
            Debuff::Failed
        } else if !t.caster_present {
            Debuff::Lost
        } else if !t.hostile {
            Debuff::Failed
        } else if t.guard.reflects_curses {
            if curse_roll < REFLECT_LIMIT && !t.caster_blocks {
                Debuff::Reflected
            } else {
                Debuff::Failed
            }
        } else if t.guard.blocks_curses {
            Debuff::Failed
        } else if slow_resisted(kind, skill_id, rate, t.guard, slow_roll) {
            Debuff::Resisted
        } else {
            Debuff::Applied
        },
    }
}

/// Decide on a debuff for given rolls.
pub fn decide_debuff(
    kind: BuffKind,
    skill_id: u32,
    rate: i16,
    t: &DebuffTarget,
    curse_roll: i32,
    slow_roll: i32,
) -> (r: Debuff)
    requires
        0 <= slow_roll <= 10000,
    ensures
        r == debuff_outcome(kind, skill_id, rate, *t, curse_roll, slow_roll),
{
    match t.state {
        None => {
            return Debuff::Lost;
        },
        Some((res, hp)) => {
            if is_dead(res, hp) || t.blinking || !t.in_range {
                return Debuff::Failed;
            }
        },
    }
    if !t.caster_present {
        return Debuff::Lost;
    }
    if !t.hostile {
        return Debuff::Failed;
    }
    if t.guard.reflects_curses {
        if curse_roll < REFLECT_LIMIT && !t.caster_blocks {
            return Debuff::Reflected;
        }
        return Debuff::Failed;
    }
    if t.guard.blocks_curses {
        return Debuff::Failed;
    }
    if resists_slow(kind, skill_id, rate, &t.guard, slow_roll) {
        return Debuff::Resisted;
    }
    Debuff::Applied
}

/// The two rolls of a debuff.
#[derive(Clone, Copy, Debug)]
pub struct DebuffRolls {
    pub curse: i32,
    pub slow: i32,
}

/// Whether rolls lie in their ranges.
pub open spec fn fair_rolls(x: DebuffRolls) -> bool {
    0 <= x.curse < 1000 && 0 <= x.slow <= 10000
}

/// Make the rolls of a debuff.
pub fn roll_debuff_rolls() -> (x: DebuffRolls)
    ensures
        fair_rolls(x),
{
    DebuffRolls { curse: roll(0, 999), slow: roll(0, 10000) }
}

// ---------------------------------------------------------------------------------------------
// Areas
// ---------------------------------------------------------------------------------------------

/// A buff or debuff on an area.
#[derive(Clone, Copy, Debug)]
pub struct AreaBuffCast {
    pub moral: i16,
    pub skill_id: u32,
    pub kind: BuffKind,
    pub rate: i16,
    pub nation: u8,
    pub in_enemy_safety: bool,
}

/// A player near the caster of a buff on an area.
#[derive(Clone, Copy, Debug)]
pub struct AreaBuffPlayer {
    pub sid: u16,
    pub res_hp_type: u8,
    pub hp: i16,
    pub authority: u8,
    pub nation: u8,
    pub blinking: bool,
    pub in_radius: bool,
    pub hostile: bool,
    pub both_in_special_zone: bool,
    pub in_own_safety: bool,
    pub guard: CurseGuard,
}

/// What becomes of a buff on an area for one player.
#[derive(Clone, Copy, Debug, PartialEq, Eq, Structural)]
pub enum AreaBuff {
    /// It does not reach them, or they withstand it.
    Spared,
    /// They withstand it, and the caster gets it.
    Reflected,
    Applied { ends_stealth: bool },
}

/// Whether a buff on an area reaches a player.
pub open spec fn area_buff_reaches(c: AreaBuffCast, p: AreaBuffPlayer) -> bool {
    &&& !dead(p.res_hp_type, p.hp)
    &&& c.moral == MORAL_AREA_ENEMY ==> p.authority != AUTHORITY_GM
    &&& !p.blinking
    &&& p.in_radius
    &&& c.moral == MORAL_AREA_ENEMY ==> p.hostile
    &&& c.moral == MORAL_AREA_FRIEND ==> !p.hostile
    &&& c.moral == MORAL_AREA_ALL ==> p.both_in_special_zone || !c.in_enemy_safety
        || !p.in_own_safety
}

/// What becomes of a buff on an area for one player. Only debuffs at enemies can be withstood.
pub open spec fn area_buff_outcome(
    c: AreaBuffCast,
    p: AreaBuffPlayer,
    caster_blocks: bool,
    x: DebuffRolls,
) -> AreaBuff {
    if !area_buff_reaches(c, p) {
        AreaBuff::Spared
    } else if c.moral == MORAL_AREA_ENEMY && p.guard.reflects_curses {
        if x.curse < REFLECT_LIMIT && !caster_blocks {
            AreaBuff::Reflected
        } else {
            AreaBuff::Spared
        }
    } else if c.moral == MORAL_AREA_ENEMY && (p.guard.blocks_curses || slow_resisted(
        c.kind,
        c.skill_id,
        c.rate,
        p.guard,
        x.slow,
    )) {
        AreaBuff::Spared
    } else {
        AreaBuff::Applied { ends_stealth: p.nation != c.nation }
    }
}

/// Decide on a buff on an area for one player.
pub fn decide_area_buff(
    c: &AreaBuffCast,
    p: &AreaBuffPlayer,
    caster_blocks: bool,
    x: &DebuffRolls,
) -> (r: AreaBuff)
    requires
        fair_rolls(*x),
    ensures
        r == area_buff_outcome(*c, *p, caster_blocks, *x),
{
    if is_dead(p.res_hp_type, p.hp) || p.blinking || !p.in_radius {
        return AreaBuff::Spared;
    }
    if c.moral == MORAL_AREA_ENEMY && (p.authority == AUTHORITY_GM || !p.hostile) {
        return AreaBuff::Spared;
    }
    if c.moral == MORAL_AREA_FRIEND && p.hostile {
        return AreaBuff::Spared;
    }
    if c.moral == MORAL_AREA_ALL && !p.both_in_special_zone && c.in_enemy_safety
        && p.in_own_safety {
        return AreaBuff::Spared;
    }
    if c.moral == MORAL_AREA_ENEMY {
        if p.guard.reflects_curses {
            if x.curse < REFLECT_LIMIT && !caster_blocks {
                return AreaBuff::Reflected;
            }
            return AreaBuff::Spared;
        }
        if p.guard.blocks_curses || resists_slow(c.kind, c.skill_id, c.rate, &p.guard, x.slow) {
            return AreaBuff::Spared;
        }
    }
    AreaBuff::Applied { ends_stealth: p.nation != c.nation }
}

/// Whether the caster blocks debuffs after a player's outcome: a reflected buff that blocks
/// debuffs works on the caster from then on.
pub open spec fn blocks_after(c: AreaBuffCast, caster_blocks: bool, outcome: AreaBuff) -> bool {
    caster_blocks || (outcome == AreaBuff::Reflected && (c.kind == BuffKind::BlockCurse || c.kind
        == BuffKind::BlockCurseReflect))
}

/// Whether the caster blocks debuffs after the outcomes of all players.
pub open spec fn blocks_after_all(
    c: AreaBuffCast,
    players: Seq<AreaBuffPlayer>,
    caster_blocks: bool,
    rolls: Seq<DebuffRolls>,
) -> bool
    decreases players.len(),
{
    if players.len() == 0 {
        caster_blocks
    } else {
        let before = blocks_after_all(c, players.drop_last(), caster_blocks, rolls.drop_last());
        blocks_after(c, before, area_buff_outcome(c, players.last(), before, rolls.last()))
    }
}

/// What becomes of a buff on an area for all players, in order.
pub open spec fn area_buff_outcomes(
    c: AreaBuffCast,
    players: Seq<AreaBuffPlayer>,
    caster_blocks: bool,
    rolls: Seq<DebuffRolls>,
) -> Seq<AreaBuff>
    decreases players.len(),
{
    if players.len() == 0 {
        Seq::empty()
    } else {
        let before = blocks_after_all(c, players.drop_last(), caster_blocks, rolls.drop_last());
        area_buff_outcomes(c, players.drop_last(), caster_blocks, rolls.drop_last()).push(
            area_buff_outcome(c, players.last(), before, rolls.last()),
        )
    }
}

/// Whether there is one pair of fair rolls for each player.
pub open spec fn all_fair(rolls: Seq<DebuffRolls>, count: nat) -> bool {
    rolls.len() == count && forall|i: int| 0 <= i < rolls.len() ==> fair_rolls(#[trigger] rolls[i])
}

/// Decide on a buff on an area for all players.
pub fn decide_area_buffs(
    c: &AreaBuffCast,
    players: &Vec<AreaBuffPlayer>,
    caster_blocks: bool,
    rolls: &Vec<DebuffRolls>,
) -> (r: Vec<AreaBuff>)
    requires
        all_fair(rolls@, players@.len()),
    ensures
        r@ == area_buff_outcomes(*c, players@, caster_blocks, rolls@),
{
    let mut outcomes: Vec<AreaBuff> = Vec::new();
    let mut blocks: bool = caster_blocks;
    let mut i: usize = 0;
    while i < players.len()
        invariant
            i <= players.len(),
            all_fair(rolls@, players@.len()),
            blocks == blocks_after_all(
                *c,
                players@.take(i as int),
                caster_blocks,
                rolls@.take(i as int),
            ),
            outcomes@ == area_buff_outcomes(
                *c,
                players@.take(i as int),
                caster_blocks,
                rolls@.take(i as int),
            ),
        decreases players.len() - i,
    {
        assert(players@.take(i + 1).drop_last() =~= players@.take(i as int));
        assert(rolls@.take(i + 1).drop_last() =~= rolls@.take(i as int));
        assert(fair_rolls(rolls@[i as int]));
        let outcome: AreaBuff = decide_area_buff(c, &players[i], blocks, &rolls[i]);
        if outcome == AreaBuff::Reflected && (c.kind == BuffKind::BlockCurse || c.kind
            == BuffKind::BlockCurseReflect) {
            blocks = true;
        }
        outcomes.push(outcome);
        i += 1;
    }
    assert(players@.take(players@.len() as int) =~= players@);
    assert(rolls@.take(rolls@.len() as int) =~= rolls@);
    outcomes
}

/// Make the rolls for all players.
pub fn roll_all(count: usize) -> (r: Vec<DebuffRolls>)
    ensures
        all_fair(r@, count as nat),
{
    let mut rolls: Vec<DebuffRolls> = Vec::new();
    let mut i: usize = 0;
    while i < count
        invariant
            i <= count,
            all_fair(rolls@, i as nat),
        decreases count - i,
    {
        rolls.push(roll_debuff_rolls());
        i += 1;
    }
    rolls
}

// ---------------------------------------------------------------------------------------------
// Laws
// ---------------------------------------------------------------------------------------------

/// The two speed buffs never stand side by side, and no type stands twice.
pub proof fn law_buffs_exclude_each_other(row: MagicType4Row, slots: BuffSlots)
    requires
        has_room(row, slots),
    ensures
        row.kind == BuffKind::Speed ==> !slots.has_speed2,
        row.kind == BuffKind::Speed2 ==> !slots.has_speed,
        or_i32(row.buff_type, 0) > 0 ==> !slots.has_same,
{
}

/// A player who blocks or reflects debuffs never gets one, whatever is rolled.
pub proof fn law_guarded_players_are_safe(
    kind: BuffKind,
    skill_id: u32,
    rate: i16,
    t: DebuffTarget,
    curse_roll: i32,
    slow_roll: i32,
)
    requires
        t.guard.blocks_curses || t.guard.reflects_curses,
    ensures
        debuff_outcome(kind, skill_id, rate, t, curse_roll, slow_roll) != Debuff::Applied,
        debuff_outcome(kind, skill_id, rate, t, curse_roll, slow_roll) != Debuff::Resisted,
{
}

/// A caster who blocks debuffs never gets their own back.
pub proof fn law_blocking_casters_are_safe(
    kind: BuffKind,
    skill_id: u32,
    rate: i16,
    t: DebuffTarget,
    curse_roll: i32,
    slow_roll: i32,
)
    requires
        t.caster_blocks,
    ensures
        debuff_outcome(kind, skill_id, rate, t, curse_roll, slow_roll) != Debuff::Reflected,
{
}

/// More resistance never makes a slowing debuff more likely: what less of it wards off, more
/// of it does.
pub proof fn law_resistance_wards_off_slowing(
    kind: BuffKind,
    skill_id: u32,
    rate: i16,
    low: CurseGuard,
    high: CurseGuard,
    roll: i32,
)
    requires
        low.cold_r <= high.cold_r,
        low.lightning_r <= high.lightning_r,
        low.resistance_bonus <= high.resistance_bonus,
        slow_resisted(kind, skill_id, rate, low, roll),
    ensures
        slow_resisted(kind, skill_id, rate, high, roll),
{
    let a = if kind == BuffKind::Speed2 {
        low.cold_r + low.resistance_bonus
    } else {
        low.lightning_r + low.resistance_bonus
    };
    let b = if kind == BuffKind::Speed2 {
        high.cold_r + high.resistance_bonus
    } else {
        high.lightning_r + high.resistance_bonus
    };
    crate::arith::lemma_tdiv_monotone(min_of(a, 250) * 100, min_of(b, 250) * 100, 250);
}

/// A party buff reaches only members who live, and the caster where nobody else is reached.
pub proof fn law_party_buffs_reach_the_living(
    members: Seq<PartyMember>,
    row: MagicType4Row,
    caster_sid: u16,
    grant: PartyGrant,
)
    requires
        reached_members(members, row, caster_sid).contains(grant),
    ensures
        exists|i: int|
            0 <= i < members.len() && #[trigger] members[i].sid == grant.sid && !members[i].dead,
    decreases members.len(),
{
    let rest = reached_members(members.drop_last(), row, caster_sid);
    let all = reached_members(members, row, caster_sid);
    let k = choose|k: int| 0 <= k < all.len() && all[k] == grant;
    if rest.contains(grant) {
        law_party_buffs_reach_the_living(members.drop_last(), row, caster_sid, grant);
        let i = choose|i: int|
            0 <= i < members.drop_last().len() && #[trigger] members.drop_last()[i].sid
                == grant.sid && !members.drop_last()[i].dead;
        assert(members[i].sid == grant.sid);
    } else {
        if k < rest.len() {
            assert(rest[k] == grant);
        }
        assert(members[members.len() - 1].sid == grant.sid);
    }
}

/// Which buffs outlast a logout: all above 500000, and those of item groups 9 and 255 that use
/// an item up.
pub proof fn law_buffs_that_outlast_a_logout(skill: MagicRow, skill_id: u32)
    ensures
        skill_id >= 500001 ==> persists(skill, skill_id),
        skill_id <= 500000 ==> (persists(skill, skill_id) <==> skill.type1 == Some(4i16) && (
        skill.item_group == Some(9i16) || skill.item_group == Some(255i16)) && or_i32(
            skill.use_item,
            0,
        ) >= 1),
{
}

/// Where buffs go by their moral: 1 to oneself, 6 without a target to the party, 2, 3, 4 and 6
/// to a friend, 7 to one enemy, 10 to 13 to an area, and others nowhere. A flash item is used
/// whatever its moral, and a skill without a row fails.
pub proof fn law_where_buffs_go(row: MagicType4Row, moral: i16, target_id: i32)
    ensures
        type4_route(None, moral, target_id) is Failed,
        ({
            let r = type4_route(Some(row), moral, target_id);
            let flash = row.kind == BuffKind::Fishing;
            &&& r is Flash <==> flash
            &&& r is Oneself <==> !flash && moral == 1
            &&& r is Party <==> !flash && moral == 6 && target_id < 0
            &&& r is Friend <==> !flash && (2 <= moral <= 4 || (moral == 6 && target_id >= 0))
            &&& r is Failed <==> !flash && moral == 7 && target_id < 0
            &&& r is Area <==> !flash && 10 <= moral <= 13
            &&& match r {
                Type4Route::EnemyPlayer { sid } => moral == 7 && 0 <= target_id <= 9999 && sid
                    == target_id,
                Type4Route::EnemyNpc { npc_id } => moral == 7 && target_id >= 10000 && npc_id
                    == target_id,
                _ => flash || moral != 7 || target_id < 0,
            }
            &&& r is Shown <==> !flash && (moral <= 0 || moral == 5 || moral == 8 || moral == 9
                || moral >= 14)
        }),
{
}

/// What a buff's cast shows: that it worked in the second word, the duration in the fourth and
/// the speed in the sixth; every other word stays. Negative durations are none.
pub proof fn law_what_casts_show(data: Seq<i32>, row: MagicType4Row, duration: i32, i: int)
    requires
        data.len() == 7,
        0 <= i < 7,
    ensures
        ({
            let shown = buff_words(data, row, duration as int);
            &&& shown.len() == 7
            &&& shown[1] == 1
            &&& shown[3] == duration
            &&& row.speed is Some ==> shown[5] == row.speed->0
            &&& row.speed is None ==> shown[5] == 0
            &&& i != 1 && i != 3 && i != 5 ==> shown[i] == data[i]
        }),
        or_i32(row.duration, 0) >= 0 ==> duration_secs(row) == or_i32(row.duration, 0),
        or_i32(row.duration, 0) <= 0 ==> duration_secs(row) == 0,
{
}

/// What a support cast shows: the same words of a cast that has no others.
pub proof fn law_what_support_shows(row: MagicType4Row)
    requires
        0 <= or_i32(row.duration, 0) <= 65535,
    ensures
        ({
            let w = support_words(row);
            &&& w.len() == 7
            &&& w[0] == 0 && w[1] == 1 && w[2] == 0 && w[4] == 0 && w[6] == 0
            &&& w[3] == or_i32(row.duration, 0)
            &&& row.speed is Some ==> w[5] == row.speed->0
            &&& row.speed is None ==> w[5] == 0
        }),
{
}

/// Who has room for a buff: whoever has none of its type, and not the other one of the two speed
/// buffs. Rows without a type are never there already.
pub proof fn law_who_has_room(row: MagicType4Row, slots: BuffSlots)
    ensures
        has_room(row, slots) <==> {
            &&& or_i32(row.buff_type, 0) >= 1 ==> !slots.has_same
            &&& row.kind is Speed ==> !slots.has_speed2
            &&& row.kind is Speed2 ==> !slots.has_speed
        },
{
}

/// Which friends get a buff: those who are there, live, and have room, and are the caster, in
/// range, or in the caster's party for a buff of morals 4 and 6. No room refuses, and all else
/// fails.
pub proof fn law_which_friends_get_a_buff(moral: i16, row: MagicType4Row, s: FriendBuffState)
    ensures
        ({
            let lives = match s.state {
                Some((posture, hp)) => posture != 3 && hp > 0,
                None => false,
            };
            let same_party = s.caster_party is Some && s.target_party is Some && s.caster_party->0
                == s.target_party->0;
            let near = s.oneself || s.in_range || (same_party && (moral == 4 || moral == 6));
            let r = friend_buff(moral, row, s);
            &&& r is Failed <==> !lives || !near
            &&& r is Granted <==> lives && near && has_room(row, s.slots)
        }),
{
}

/// Whom a party buff reaches, in the party's order: the caster and the members within its
/// radius who live; all who live where it has none, and those whose place is not known. Each is
/// granted it where they have room. Where nobody is reached it is the caster's alone.
pub proof fn law_whom_party_buffs_reach(
    members: Seq<PartyMember>,
    p: PartyMember,
    row: MagicType4Row,
    caster_sid: u16,
    caster_slots: BuffSlots,
)
    ensures
        ({
            let near = !p.dead && (p.sid == caster_sid || or_i32(row.radius, 0) <= 0 || !p.placed
                || (p.same_zone && p.in_radius));
            let before = reached_members(members, row, caster_sid);
            let after = reached_members(members.push(p), row, caster_sid);
            &&& reached_members(Seq::empty(), row, caster_sid).len() == 0
            &&& !near ==> after == before
            &&& near ==> {
                &&& after.len() == before.len() + 1
                &&& after.drop_last() == before
                &&& after.last().sid == p.sid
                &&& after.last().granted == has_room(row, p.slots)
            }
            &&& before.len() > 0 ==> party_grants(members, row, caster_sid, caster_slots)
                == before
            &&& before.len() == 0 ==> {
                let own = party_grants(members, row, caster_sid, caster_slots);
                &&& own.len() == 1
                &&& own[0].sid == caster_sid
                &&& own[0].granted == has_room(row, caster_slots)
            }
        }),
{
    assert(members.push(p).drop_last() =~= members);
    let before = reached_members(members, row, caster_sid);
    let after = reached_members(members.push(p), row, caster_sid);
    if reached(p, caster_sid, or_i32(row.radius, 0)) {
        assert(after.drop_last() =~= before);
    }
}

/// What a debuff does to an NPC: nothing where it freezes, and else the row's type for the row's
/// time, where it has a type.
pub proof fn law_debuffs_on_npcs(row: MagicType4Row)
    ensures
        match npc_debuff(row) {
            NpcDebuff::Refused => row.kind is Freeze,
            NpcDebuff::Shown => !(row.kind is Freeze) && or_i32(row.buff_type, 0) <= 0,
            NpcDebuff::Applied { buff_type, duration_secs } => {
                &&& !(row.kind is Freeze)
                &&& row.buff_type == Some(buff_type) && buff_type > 0
                &&& or_i32(row.duration, 0) >= 0 ==> duration_secs == or_i32(row.duration, 0)
                &&& or_i32(row.duration, 0) <= 0 ==> duration_secs == 0
            },
        },
{
}

/// How slowing is warded off: of the three kinds that slow, the second speed by cold and the
/// others by lightning resistance, with the bonus at most 250 in all. Two fifths of that, three
/// times, are added to the roll, which the skill's rate must exceed; a rate of 0 never does, and
/// some skills need not.
pub proof fn law_how_slowing_is_warded_off(
    kind: BuffKind,
    skill_id: u32,
    rate: i16,
    g: CurseGuard,
    roll: i32,
)
    requires
        0 <= g.cold_r,
        0 <= g.lightning_r,
        0 <= g.resistance_bonus,
    ensures
        ({
            let own = if kind is Speed2 {
                g.cold_r + g.resistance_bonus
            } else {
                g.lightning_r + g.resistance_bonus
            };
            let most = if own > 250 {
                250
            } else {
                own
            };
            let slows = kind is Speed || kind is Speed2 || kind is Stun;
            slow_resisted(kind, skill_id, rate, g, roll) <==> {
                &&& slows
                &&& !resistance_bypass_skill(skill_id)
                &&& rate <= 0 || rate - roll <= 3 * (2 * most / 5)
            }
        }),
{
}

/// What becomes of a debuff: lost where someone is gone, failed where its target is dead, unseen,
/// out of range, a friend, or blocks it; one who reflects sends a quarter of them back, unless
/// the caster blocks. Then it can be warded off, and else it works.
pub proof fn law_what_becomes_of_debuffs(
    kind: BuffKind,
    skill_id: u32,
    rate: i16,
    t: DebuffTarget,
    curse_roll: i32,
    slow_roll: i32,
)
    ensures
        ({
            let r = debuff_outcome(kind, skill_id, rate, t, curse_roll, slow_roll);
            let there = match t.state {
                Some((posture, hp)) => posture != 3 && hp > 0 && !t.blinking && t.in_range,
                None => false,
            };
            let open = there && t.caster_present && t.hostile;
            let warded = slow_resisted(kind, skill_id, rate, t.guard, slow_roll);
            &&& r is Lost <==> t.state is None || (there && !t.caster_present)
            &&& r is Reflected <==> open && t.guard.reflects_curses && curse_roll <= 249
                && !t.caster_blocks
            &&& r is Resisted <==> open && !t.guard.reflects_curses && !t.guard.blocks_curses
                && warded
            &&& r is Applied <==> open && !t.guard.reflects_curses && !t.guard.blocks_curses
                && !warded
        }),
{
}

/// Whom a buff on an area reaches: the living within its radius who do not blink; enemies who
/// are no game masters for an attack, friends for a help, and for one on all everyone but who
/// stands in a safety area of their own with the caster in it.
pub proof fn law_whom_area_buffs_reach(c: AreaBuffCast, p: AreaBuffPlayer)
    ensures
        ({
            let open = p.res_hp_type != 3 && p.hp > 0 && !p.blinking && p.in_radius;
            let r = area_buff_reaches(c, p);
            &&& !open ==> !r
            &&& open && c.moral == 10 ==> (r <==> p.hostile && p.authority != 0)
            &&& open && c.moral == 11 ==> (r <==> !p.hostile)
            &&& open && c.moral == 12 ==> (r <==> !(c.in_enemy_safety && p.in_own_safety
                && !p.both_in_special_zone))
            &&& open && c.moral != 10 && c.moral != 11 && c.moral != 12 ==> r
        }),
{
}

/// What becomes of a buff on an area for someone it reaches: only an attack can be withstood, by
/// reflecting, a quarter of the time back to a caster who does not block, by blocking, or by
/// warding off. It ends stealth between nations alone.
pub proof fn law_what_area_buffs_do(
    c: AreaBuffCast,
    p: AreaBuffPlayer,
    caster_blocks: bool,
    x: DebuffRolls,
)
    ensures
        ({
            let attack = c.moral == 10;
            let r = area_buff_outcome(c, p, caster_blocks, x);
            let reflects = attack && p.guard.reflects_curses;
            let withstands = attack && (p.guard.blocks_curses || slow_resisted(
                c.kind,
                c.skill_id,
                c.rate,
                p.guard,
                x.slow,
            ));
            &&& !area_buff_reaches(c, p) ==> r is Spared
            &&& r is Reflected <==> area_buff_reaches(c, p) && reflects && x.curse <= 249
                && !caster_blocks
            &&& r is Applied <==> area_buff_reaches(c, p) && !reflects && !withstands
            &&& r is Applied ==> r->ends_stealth == (p.nation != c.nation)
            &&& blocks_after(c, caster_blocks, r) <==> caster_blocks || (r is Reflected && (
            c.kind is BlockCurse || c.kind is BlockCurseReflect))
        }),
{
}

/// Buffs on an area go from player to player: each has an outcome of their own by their own
/// rolls, and what is reflected on the way counts for those after.
pub proof fn law_area_buffs_go_in_order(
    c: AreaBuffCast,
    players: Seq<AreaBuffPlayer>,
    p: AreaBuffPlayer,
    caster_blocks: bool,
    rolls: Seq<DebuffRolls>,
    x: DebuffRolls,
)
    ensures
        ({
            let before = blocks_after_all(c, players, caster_blocks, rolls);
            let all = area_buff_outcomes(c, players.push(p), caster_blocks, rolls.push(x));
            &&& area_buff_outcomes(c, Seq::empty(), caster_blocks, Seq::empty()).len() == 0
            &&& blocks_after_all(c, Seq::empty(), caster_blocks, Seq::empty()) == caster_blocks
            &&& all.len() > 0
            &&& all.drop_last() == area_buff_outcomes(c, players, caster_blocks, rolls)
            &&& all.last() == area_buff_outcome(c, p, before, x)
            &&& blocks_after_all(c, players.push(p), caster_blocks, rolls.push(x))
                == blocks_after(c, before, all.last())
        }),
{
    assert(players.push(p).drop_last() =~= players);
    assert(rolls.push(x).drop_last() =~= rolls);
    let all = area_buff_outcomes(c, players.push(p), caster_blocks, rolls.push(x));
    assert(all.drop_last() =~= area_buff_outcomes(c, players, caster_blocks, rolls));
}

/// Who grants buffs: bots and NPCs with a known skill and its row, to the living; a bot not to
/// whom has a buff of its type already.
pub proof fn law_who_grants_support(
    known: bool,
    row: Option<MagicType4Row>,
    has_same: bool,
    target_dead: bool,
)
    ensures
        npc_supports(known, row, target_dead) <==> known && row is Some && !target_dead,
        has_same && row is Some && or_i32(row->0.buff_type, 0) >= 1 ==> !bot_supports(
            known,
            row,
            has_same,
            target_dead,
        ),
        !has_same || row is None || or_i32(row->0.buff_type, 0) <= 0 ==> bot_supports(
            known,
            row,
            has_same,
            target_dead,
        ) == npc_supports(known, row, target_dead),
{
}

/// How a granted buff is shown: as an effect (3) of the skill, from its caster to the very player
/// who gets it; a party buff with the cast's words, support with its own.
pub proof fn law_granted_buffs_are_shown(
    m: MagicInstance,
    caster_id: u32,
    sid: u16,
    skill_id: u32,
    row: MagicType4Row,
    i: int,
)
    requires
        0 <= i < 7,
        caster_id <= i32::MAX,
    ensures
        ({
            let p = party_buff_payload(m, sid);
            let q = support_payload(caster_id, sid, skill_id, row);
            &&& p.len() == 41 && q.len() == 41
            &&& p[0] == 3 && q[0] == 3
            &&& u32_at_front(p.skip(1)) == m.skill_id && u32_at_front(q.skip(1)) == skill_id
            &&& u32_at_front(p.skip(5)) as i32 == m.caster_id && u32_at_front(q.skip(5)) as i32
                == caster_id
            &&& u32_at_front(p.skip(9)) as i32 == sid && u32_at_front(q.skip(9)) as i32 == sid
            &&& u32_at_front(p.skip(13 + 4 * i)) as i32 == m.data@[i]
            &&& u32_at_front(q.skip(13 + 4 * i)) as i32 == support_words(row)[i]
        }),
{
    crate::instance::law_skill_packets_are_laid_out(3, m.skill_id, m.caster_id, sid as i32, m.data@, i);
    crate::instance::law_skill_packets_are_laid_out(
        3,
        skill_id,
        caster_id as i32,
        sid as i32,
        support_words(row),
        i,
    );
}

/// Empty columns of a buff's row, and of its skill, count as 0 for its cast.
pub proof fn law_empty_columns_are_0_for_buff_casts(
    skill: MagicRow,
    skill_id: u32,
    row: MagicType4Row,
    data: Seq<i32>,
    slots: BuffSlots,
    friend: FriendBuffState,
    member: PartyMember,
    caster_sid: u16,
)
    ensures
        ({
            let f = crate::tables::filled_buff(row);
            let moral = or_i16(skill.moral, 0);
            &&& persists(crate::tables::filled_skill(skill), skill_id) == persists(skill, skill_id)
            &&& duration_secs(f) == duration_secs(row)
            &&& buff_words(data, f, duration_secs(f)) == buff_words(data, row, duration_secs(row))
            &&& has_room(f, slots) == has_room(row, slots)
            &&& friend_buff(moral, f, friend) == friend_buff(moral, row, friend)
            &&& reached_members(seq![member], f, caster_sid) == reached_members(
                seq![member],
                row,
                caster_sid,
            )
            &&& support_words(f) == support_words(row)
            &&& npc_debuff(f) == npc_debuff(row)
        }),
{
    let f = crate::tables::filled_buff(row);
    assert(reached_members(seq![member], f, caster_sid) == reached_members(
        seq![member],
        row,
        caster_sid,
    )) by {
        reveal_with_fuel(reached_members, 2);
        assert(seq![member].drop_last() =~= Seq::empty());
    }
}

} // verus!
