//! Teleports, summons and kicks.

use crate::arith::{clamp_i32, clamp_to};
use crate::constants::{MORAL_ENEMY, MORAL_PARTY, NPC_BAND, WIZ_WARP, ZONE_FORGOTTEN_TEMPLE};
use crate::instance::{fail_reason, same_cast, MagicInstance};
use crate::notices::build_warp;
use crate::packet::{u16_bytes, Packet};
use crate::random::pick_index;
use crate::tables::MagicType8Row;
use vstd::prelude::*;

verus! {

/// What a teleport skill does, by its kind of warp.
#[derive(Clone, Copy, Debug, PartialEq, Eq, Structural)]
pub enum WarpRoute {
    /// The caster is told that the skill failed.
    Failed,
    /// To a party member or an enemy.
    Descend,
    /// To a player of the same nation.
    Join,
    /// A party member comes to the caster.
    CallFriend,
    /// A monster appears.
    SummonMonster,
    /// A short way that the client has chosen.
    Blink,
    /// Back to the bind point.
    Home,
    /// The target is knocked back: a ball is kicked, and so is anything by a kind of warp that
    /// has no meaning of its own.
    Kick,
}

/// What a teleport skill does.
pub open spec fn warp_route(row: Option<MagicType8Row>) -> WarpRoute {
    match row {
        None => WarpRoute::Failed,
        Some(row) => {
            let t = row.warp_type;
            if t == 25 {
                WarpRoute::Descend
            } else if t == 27 {
                WarpRoute::Join
            } else if t == 12 {
                WarpRoute::CallFriend
            } else if t == 21 {
                WarpRoute::SummonMonster
            } else if t == 20 || t == 26 {
                WarpRoute::Blink
            } else if t == 1 {
                WarpRoute::Home
            } else {
                WarpRoute::Kick
            }
        },
    }
}

/// Find out what a teleport skill does.
pub fn route_type8(row: &Option<MagicType8Row>) -> (r: WarpRoute)
    ensures
        r == warp_route(*row),
{
    match row {
        None => WarpRoute::Failed,
        Some(d) => match d.warp_type {
            25 => WarpRoute::Descend,
            27 => WarpRoute::Join,
            12 => WarpRoute::CallFriend,
            21 => WarpRoute::SummonMonster,
            20 | 26 => WarpRoute::Blink,
            1 => WarpRoute::Home,
            _ => WarpRoute::Kick,
        },
    }
}

/// The caster of a teleport skill and the player it is aimed at.
#[derive(Clone, Copy, Debug)]
pub struct WarpPair {
    /// Whether both are there and stand somewhere.
    pub present: bool,
    pub caster_sid: u16,
    pub caster_zone: u16,
    pub target_zone: u16,
    pub caster_nation: u8,
    pub target_nation: u8,
    pub caster_party: Option<u16>,
    pub target_party: Option<u16>,
    /// Whether their distance is at most the skill's radius.
    pub in_radius: bool,
    pub hostile: bool,
    pub target_dead: bool,
    pub target_blinking: bool,
    /// Whether the target's place can be stood on.
    pub valid_place: bool,
    /// What the caster's zone allows; `None` where the zone is not known.
    pub zone: Option<ZoneAbilities>,
    /// Whether the caster's zone is one of the special battles.
    pub special_battle: bool,
}

/// What a zone allows.
#[derive(Clone, Copy, Debug)]
pub struct ZoneAbilities {
    pub teleport: bool,
    pub teleport_friend: bool,
    pub calling_friend: bool,
    pub blink_zone: bool,
}

/// Whether a target's number is a player's.
pub open spec fn player_target(target_id: i32) -> bool {
    0 <= target_id < NPC_BAND
}

/// Whether two parties are one.
pub open spec fn same_party(p: WarpPair) -> bool {
    p.caster_party is Some && p.caster_party == p.target_party
}

/// Check whether two parties are one.
fn in_one_party(p: &WarpPair) -> (r: bool)
    ensures
        r == same_party(*p),
{
    match (p.caster_party, p.target_party) {
        (Some(a), Some(b)) => a == b,
        _ => false,
    }
}

/// Whether the caster's zone allows teleports.
pub open spec fn teleport_zone(p: WarpPair) -> bool {
    match p.zone {
        Some(z) => z.teleport,
        None => false,
    }
}

/// Whether a caster may descend on a target: in one zone and within the radius, by a party
/// skill on a party member, by an attack on an enemy. Some skills do so anywhere.
pub open spec fn may_descend(
    target_id: i32,
    magic_num: i32,
    moral: i16,
    radius: i32,
    p: WarpPair,
) -> bool {
    &&& player_target(target_id)
    &&& p.present
    &&& p.caster_sid != target_id
    &&& p.caster_zone == p.target_zone
    &&& radius > 0
    &&& p.in_radius
    &&& (moral == MORAL_PARTY && same_party(p)) || (moral == MORAL_ENEMY && p.hostile)
    &&& magic_num == 108770 || magic_num == 208770 || teleport_zone(p)
    &&& p.valid_place
}

/// Check whether a caster may descend on a target.
pub fn type8_warp25_destination(
    target_id: i32,
    magic_num: i32,
    moral: i16,
    radius: i32,
    p: &WarpPair,
) -> (r: bool)
    ensures
        r == may_descend(target_id, magic_num, moral, radius, *p),
{
    if target_id < 0 || (target_id as u32) >= NPC_BAND || !p.present {
        return false;
    }
    if p.caster_sid == target_id as u16 || p.caster_zone != p.target_zone {
        return false;
    }
    if radius <= 0 || !p.in_radius {
        return false;
    }
    if moral == MORAL_PARTY {
        if !in_one_party(p) {
            return false;
        }
    } else if moral == MORAL_ENEMY {
        if !p.hostile {
            return false;
        }
    } else {
        return false;
    }
    let allowed: bool = match p.zone {
        Some(z) => z.teleport,
        None => false,
    };
    if magic_num != 108770 && magic_num != 208770 && !allowed {
        return false;
    }
    p.valid_place
}

/// Whether a caster may join a target: in one zone that allows teleports, and of one nation.
/// One skill does not work in special battles.
pub open spec fn may_join(target_id: i32, magic_num: i32, p: WarpPair) -> bool {
    &&& player_target(target_id)
    &&& p.present
    &&& p.caster_zone == p.target_zone
    &&& p.caster_nation == p.target_nation
    &&& !(magic_num == 500038 && p.special_battle)
    &&& teleport_zone(p)
    &&& p.valid_place
}

/// Check whether a caster may join a target.
pub fn type8_warp27_destination(target_id: i32, magic_num: i32, p: &WarpPair) -> (r: bool)
    ensures
        r == may_join(target_id, magic_num, *p),
{
    if target_id < 0 || (target_id as u32) >= NPC_BAND || !p.present {
        return false;
    }
    if p.caster_zone != p.target_zone || p.caster_nation != p.target_nation {
        return false;
    }
    if magic_num == 500038 && p.special_battle {
        return false;
    }
    match p.zone {
        Some(z) => z.teleport && p.valid_place,
        None => false,
    }
}

/// The skills that call friends.
pub open spec fn friend_call(magic_num: i32) -> bool {
    magic_num == 109004 || magic_num == 110004 || magic_num == 209004 || magic_num == 210004
}

/// Whether a party member may be called: in one zone, alive and not blinking, as far as the
/// zone allows the skill.
pub open spec fn may_call(target_id: i32, magic_num: i32, p: WarpPair) -> bool {
    &&& player_target(target_id)
    &&& p.present
    &&& p.caster_sid != target_id
    &&& p.caster_zone == p.target_zone
    &&& same_party(p)
    &&& !p.target_dead
    &&& !p.target_blinking
    &&& match p.zone {
        None => false,
        Some(z) => if magic_num == 490042 {
            false
        } else if magic_num == 490050 {
            z.calling_friend && p.caster_zone != ZONE_FORGOTTEN_TEMPLE
        } else if friend_call(magic_num) {
            z.teleport_friend
        } else {
            true
        },
    }
}

/// Check whether a party member may be called; `Some` is the member.
pub fn type8_warp12_target(target_id: i32, magic_num: i32, p: &WarpPair) -> (r: Option<u16>)
    ensures
        match r {
            Some(sid) => may_call(target_id, magic_num, *p) && sid == target_id,
            None => !may_call(target_id, magic_num, *p),
        },
{
    if target_id < 0 || (target_id as u32) >= NPC_BAND || !p.present {
        return None;
    }
    let sid: u16 = target_id as u16;
    if p.caster_sid == sid || p.caster_zone != p.target_zone || !in_one_party(p) || p.target_dead
        || p.target_blinking {
        return None;
    }
    let z: ZoneAbilities = match p.zone {
        Some(z) => z,
        None => {
            return None;
        },
    };
    match magic_num {
        490042 => {
            return None;
        },
        490050 => {
            if !z.calling_friend || p.caster_zone == ZONE_FORGOTTEN_TEMPLE {
                return None;
            }
        },
        109004 | 110004 | 209004 | 210004 => {
            if !z.teleport_friend {
                return None;
            }
        },
        _ => {},
    }
    Some(sid)
}

/// Whether a teleport to a player, or of one, can take place. Other teleports are always
/// tried.
pub open spec fn warp_possible(
    target_id: i32,
    magic_num: i32,
    moral: i16,
    row: Option<MagicType8Row>,
    p: WarpPair,
) -> bool {
    match warp_route(row) {
        WarpRoute::Descend => may_descend(target_id, magic_num, moral, row->0.radius, p),
        WarpRoute::Join => may_join(target_id, magic_num, p),
        WarpRoute::CallFriend => may_call(target_id, magic_num, p),
        _ => true,
    }
}

/// Check before its cost is paid whether a teleport can take place.
pub fn check_warp(
    target_id: i32,
    magic_num: i32,
    moral: i16,
    row: &Option<MagicType8Row>,
    p: &WarpPair,
) -> (r: bool)
    ensures
        r == warp_possible(target_id, magic_num, moral, *row, *p),
{
    let radius: i32 = match row {
        Some(d) => d.radius,
        None => 0,
    };
    match route_type8(row) {
        WarpRoute::Descend => type8_warp25_destination(target_id, magic_num, moral, radius, p),
        WarpRoute::Join => type8_warp27_destination(target_id, magic_num, p),
        WarpRoute::CallFriend => type8_warp12_target(target_id, magic_num, p).is_some(),
        _ => true,
    }
}

/// The list of monsters that a summoning item draws from; `None` for other skills.
pub open spec fn monster_list(magic_num: i32) -> Option<u8> {
    if magic_num == 490088 || magic_num == 490093 || magic_num == 490096 || magic_num == 490097
        || magic_num == 500202 {
        Some(1u8)
    } else if magic_num == 492015 {
        Some(2u8)
    } else {
        None
    }
}

/// Find the list of monsters that a summoning item draws from.
pub fn summon_class(magic_num: i32) -> (r: Option<u8>)
    ensures
        r == monster_list(magic_num),
{
    match magic_num {
        490088 | 490093 | 490096 | 490097 | 500202 => Some(1),
        492015 => Some(2),
        _ => None,
    }
}

/// Choose a monster of a list; `None` where the list is empty.
pub fn choose_monster(monsters: &Vec<u16>) -> (r: Option<u16>)
    requires
        monsters@.len() <= u32::MAX,
    ensures
        match r {
            Some(x) => monsters@.contains(x),
            None => monsters@.len() == 0,
        },
{
    if monsters.len() == 0 {
        return None;
    }
    let i: u32 = pick_index(monsters.len() as u32);
    assert(monsters@[i as int] == monsters@[i as int]);
    Some(monsters[i as usize])
}

/// The place of a blink in tenths of a world unit: the first and third data words, as far as
/// they fit.
pub open spec fn blink_place(data: Seq<i32>) -> (u16, u16) {
    (
        clamp_to(data[0] as int, 0, u16::MAX as int) as u16,
        clamp_to(data[2] as int, 0, u16::MAX as int) as u16,
    )
}

/// Where a blink leads to, if it works.
pub open spec fn blink(
    zone: Option<ZoneAbilities>,
    placed: bool,
    valid_place: bool,
    data: Seq<i32>,
) -> Option<(u16, u16)> {
    if placed && zone is Some && zone->0.blink_zone && valid_place {
        Some(blink_place(data))
    } else {
        None
    }
}

/// Check a blink: the caster stands somewhere, the zone allows it, and the place can be stood
/// on. Where it works, its cast notes that.
pub fn check_blink(
    m: &mut MagicInstance,
    zone: Option<ZoneAbilities>,
    placed: bool,
    valid_place: bool,
) -> (r: Option<(u16, u16)>)
    ensures
        same_cast(*final(m), *old(m)),
        r == blink(zone, placed, valid_place, old(m).data@),
        final(m).data@ == (if r is Some {
            old(m).data@.update(1, 1)
        } else {
            old(m).data@
        }),
{
    let allowed: bool = match zone {
        Some(z) => z.blink_zone,
        None => false,
    };
    if !placed || !allowed || !valid_place {
        return None;
    }
    let x: u16 = clamp_i32(m.data[0], 0, u16::MAX as i32) as u16;
    let z: u16 = clamp_i32(m.data[2], 0, u16::MAX as i32) as u16;
    m.data[1] = 1;
    Some((x, z))
}

/// Move a player within their zone, to a place in tenths of a world unit.
pub fn build_warp_to(place: (u16, u16)) -> (p: Packet)
    ensures
        p.opcode == WIZ_WARP,
        p.data@ == u16_bytes(place.0) + u16_bytes(place.1) + u16_bytes(-1i16 as u16),
        p.opcode == 0x1E,
        p.data@.len() == 6,
        p.data@.subrange(0, 2) == u16_bytes(place.0),
        p.data@.subrange(2, 4) == u16_bytes(place.1),
{
    build_warp(place.0, place.1)
}

/// Whom the way home is for.
pub open spec fn home_sid(target_id: i32, caster_sid: u16) -> u16 {
    if target_id < 0 {
        caster_sid
    } else {
        target_id as u16
    }
}

/// Whom the way home is for: the caster, where the skill has no target.
pub fn home_target(target_id: i32, caster_sid: u16) -> (r: u16)
    ensures
        r == home_sid(target_id, caster_sid),
{
    if target_id < 0 {
        caster_sid
    } else {
        target_id as u16
    }
}

/// What a kick does.
#[derive(Clone, Copy, Debug, PartialEq, Eq, Structural)]
pub enum Kick {
    /// The caster is told that the skill failed.
    Failed,
    /// The effect is shown, and the ball of this number moves.
    Moves { sid: u16 },
    /// The effect is shown and nothing moves.
    Shown,
}

/// What a kick does. Players are never kicked.
pub open spec fn kick(target_id: i32, distance: i32) -> Kick {
    if distance <= 0 || player_target(target_id) {
        Kick::Failed
    } else if target_id >= NPC_BAND {
        Kick::Moves { sid: target_id as u16 }
    } else {
        Kick::Shown
    }
}

/// Find out what a kick does.
pub fn plan_kick(target_id: i32, distance: i32) -> (r: Kick)
    ensures
        r == kick(target_id, distance),
{
    if distance <= 0 {
        return Kick::Failed;
    }
    if target_id < 0 {
        return Kick::Shown;
    }
    if (target_id as u32) < NPC_BAND {
        Kick::Failed
    } else {
        Kick::Moves { sid: target_id as u16 }
    }
}

/// Note in its cast that a teleport worked.
pub fn mark_warp(m: &mut MagicInstance)
    ensures
        same_cast(*final(m), *old(m)),
        final(m).data@ == old(m).data@.update(1, 1),
{
    m.data[1] = 1;
}

/// What a teleport skill meets. Only what its kind needs has to be filled in.
#[derive(Debug)]
pub struct WarpScene {
    pub pair: WarpPair,
    /// Whether the caster stands somewhere.
    pub placed: bool,
    /// Whether the place that a blink leads to can be stood on.
    pub valid_blink: bool,
    /// Whether the player who goes home is there.
    pub home_present: bool,
    /// The monsters of the skill's list.
    pub monsters: Vec<u16>,
}

/// What a teleport skill does.
#[derive(Clone, Copy, Debug, PartialEq, Eq)]
pub enum WarpOutcome {
    /// The caster is told that the skill failed.
    Failed,
    /// The caster moves to the player they aimed at.
    ToTarget { sid: u16 },
    /// A party member moves to the caster.
    ToCaster { sid: u16 },
    /// A monster is to appear; see [`finish_summon`].
    Summon { monster: u16 },
    Blink { place: (u16, u16) },
    Home { sid: u16 },
    /// A ball is kicked and moves.
    Kicked { sid: u16 },
    /// The effect is shown and nothing moves.
    Shown,
}

impl WarpOutcome {
    /// Whether the skill was carried out. A summon still needs its monster to appear.
    pub fn lands(&self) -> (r: bool)
        ensures
            r == !(self is Failed),
    {
        !matches!(self, WarpOutcome::Failed)
    }
}

/// Whether an outcome is that of a teleport skill. Where monsters are to choose from, any of
/// them can appear.
pub open spec fn is_warp(
    r: WarpOutcome,
    target_id: i32,
    data: Seq<i32>,
    magic_num: i32,
    moral: i16,
    row: Option<MagicType8Row>,
    s: WarpScene,
) -> bool {
    let sid = target_id as u16;
    match warp_route(row) {
        WarpRoute::Failed => r is Failed,
        WarpRoute::Descend => r == (if may_descend(
            target_id,
            magic_num,
            moral,
            row->0.radius,
            s.pair,
        ) {
            WarpOutcome::ToTarget { sid }
        } else {
            WarpOutcome::Failed
        }),
        WarpRoute::Join => r == (if may_join(target_id, magic_num, s.pair) {
            WarpOutcome::ToTarget { sid }
        } else {
            WarpOutcome::Failed
        }),
        WarpRoute::CallFriend => r == (if may_call(target_id, magic_num, s.pair) {
            WarpOutcome::ToCaster { sid }
        } else {
            WarpOutcome::Failed
        }),
        WarpRoute::SummonMonster => match r {
            WarpOutcome::Summon { monster } => monster_list(magic_num) is Some && s.placed
                && s.monsters@.contains(monster),
            WarpOutcome::Failed => monster_list(magic_num) is None || !s.placed
                || s.monsters@.len() == 0,
            _ => false,
        },
        WarpRoute::Blink => r == (if s.placed && s.pair.zone is Some && s.pair.zone->0.blink_zone
            && s.valid_blink {
            WarpOutcome::Blink { place: blink_place(data) }
        } else {
            WarpOutcome::Failed
        }),
        WarpRoute::Home => r == (if s.home_present {
            WarpOutcome::Home {
                sid: if target_id < 0 {
                    s.pair.caster_sid
                } else {
                    sid
                },
            }
        } else {
            WarpOutcome::Failed
        }),
        WarpRoute::Kick => r == (match kick(target_id, row->0.kick_distance) {
            Kick::Failed => WarpOutcome::Failed,
            Kick::Moves { sid } => WarpOutcome::Kicked { sid },
            Kick::Shown => WarpOutcome::Shown,
        }),
    }
}

/// The data words of a cast after a teleport skill.
pub open spec fn warp_words(opcode: u8, data: Seq<i32>, r: WarpOutcome) -> Seq<i32> {
    match r {
        WarpOutcome::Failed => data.update(3, fail_reason(opcode)),
        WarpOutcome::Summon { .. } => data,
        _ => data.update(1, 1),
    }
}

/// Carry out a teleport skill. Where it works its cast says so, but for summons.
pub fn execute_type8(
    m: &mut MagicInstance,
    magic_num: i32,
    moral: i16,
    row: &Option<MagicType8Row>,
    s: &WarpScene,
) -> (r: WarpOutcome)
    requires
        s.monsters@.len() <= u32::MAX,
    ensures
        is_warp(r, old(m).target_id, old(m).data@, magic_num, moral, *row, *s),
        same_cast(*final(m), *old(m)),
        final(m).data@ == warp_words(old(m).opcode, old(m).data@, r),
{
    let target_id: i32 = m.target_id;
    let sid: u16 = target_id as u16;
    let row8: MagicType8Row = match row {
        Some(d) => *d,
        None => {
            let _packet = m.send_skill_failed();
            return WarpOutcome::Failed;
        },
    };
    let outcome: WarpOutcome = match route_type8(row) {
        WarpRoute::Failed => WarpOutcome::Failed,
        WarpRoute::Descend => if type8_warp25_destination(
            target_id,
            magic_num,
            moral,
            row8.radius,
            &s.pair,
        ) {
            WarpOutcome::ToTarget { sid }
        } else {
            WarpOutcome::Failed
        },
        WarpRoute::Join => if type8_warp27_destination(target_id, magic_num, &s.pair) {
            WarpOutcome::ToTarget { sid }
        } else {
            WarpOutcome::Failed
        },
        WarpRoute::CallFriend => match type8_warp12_target(target_id, magic_num, &s.pair) {
            Some(friend) => WarpOutcome::ToCaster { sid: friend },
            None => WarpOutcome::Failed,
        },
        WarpRoute::SummonMonster => {
            if summon_class(magic_num).is_some() && s.placed {
                match choose_monster(&s.monsters) {
                    Some(monster) => {
                        return WarpOutcome::Summon { monster };
                    },
                    None => WarpOutcome::Failed,
                }
            } else {
                WarpOutcome::Failed
            }
        },
        WarpRoute::Blink => match check_blink(m, s.pair.zone, s.placed, s.valid_blink) {
            Some(place) => {
                return WarpOutcome::Blink { place };
            },
            None => WarpOutcome::Failed,
        },
        WarpRoute::Home => if s.home_present {
            WarpOutcome::Home { sid: home_target(target_id, s.pair.caster_sid) }
        } else {
            WarpOutcome::Failed
        },
        WarpRoute::Kick => match plan_kick(target_id, row8.kick_distance) {
            Kick::Failed => WarpOutcome::Failed,
            Kick::Moves { sid } => WarpOutcome::Kicked { sid },
            Kick::Shown => WarpOutcome::Shown,
        },
    };
    match outcome {
        WarpOutcome::Failed => {
            let _packet = m.send_skill_failed();
        },
        _ => {
            mark_warp(m);
        },
    }
    outcome
}

/// The data words of a cast after a summon.
pub open spec fn summon_words(opcode: u8, data: Seq<i32>, appeared: bool) -> Seq<i32> {
    if appeared {
        data.update(1, 1)
    } else {
        data.update(3, fail_reason(opcode))
    }
}

/// Finish a summon: its cast says whether the monster has appeared.
pub fn finish_summon(m: &mut MagicInstance, appeared: bool)
    ensures
        same_cast(*final(m), *old(m)),
        final(m).data@ == summon_words(old(m).opcode, old(m).data@, appeared),
{
    if appeared {
        mark_warp(m);
    } else {
        let _packet = m.send_skill_failed();
    }
}

/// A teleport to a player, or of one, that was checked beforehand takes place.
pub proof fn law_checked_warps_take_place(
    r: WarpOutcome,
    target_id: i32,
    data: Seq<i32>,
    magic_num: i32,
    moral: i16,
    row: Option<MagicType8Row>,
    s: WarpScene,
)
    requires
        is_warp(r, target_id, data, magic_num, moral, row, s),
        warp_possible(target_id, magic_num, moral, row, s.pair),
        warp_route(row) == WarpRoute::Descend || warp_route(row) == WarpRoute::Join || warp_route(
            row,
        ) == WarpRoute::CallFriend,
    ensures
        r !is Failed,
{
}

/// Nobody teleports to another zone or to an NPC by joining, descending or calling.
pub proof fn law_teleports_stay_in_the_zone(
    target_id: i32,
    magic_num: i32,
    moral: i16,
    radius: i32,
    p: WarpPair,
)
    requires
        may_descend(target_id, magic_num, moral, radius, p) || may_join(target_id, magic_num, p)
            || may_call(target_id, magic_num, p),
    ensures
        p.caster_zone == p.target_zone,
        player_target(target_id),
        p.present,
{
}

/// Nobody descends on themself or calls themself.
pub proof fn law_no_teleport_to_oneself(
    magic_num: i32,
    moral: i16,
    radius: i32,
    p: WarpPair,
)
    ensures
        !may_descend(p.caster_sid as i32, magic_num, moral, radius, p),
        !may_call(p.caster_sid as i32, magic_num, p),
{
}

/// The dead are not called.
pub proof fn law_the_dead_are_not_called(target_id: i32, magic_num: i32, p: WarpPair)
    requires
        p.target_dead,
    ensures
        !may_call(target_id, magic_num, p),
{
}

/// What kinds of warps do: 25 descends, 27 joins, 12 calls a friend, 21 summons, 20 and 26 blink,
/// 1 leads home, and every other kicks.
pub proof fn law_what_kinds_of_warps_do(row: MagicType8Row)
    ensures
        warp_route(None) is Failed,
        warp_route(Some(row)) is Descend <==> row.warp_type == 25,
        warp_route(Some(row)) is Join <==> row.warp_type == 27,
        warp_route(Some(row)) is CallFriend <==> row.warp_type == 12,
        warp_route(Some(row)) is SummonMonster <==> row.warp_type == 21,
        warp_route(Some(row)) is Blink <==> row.warp_type == 20 || row.warp_type == 26,
        warp_route(Some(row)) is Home <==> row.warp_type == 1,
        !(warp_route(Some(row)) is Failed),
{
}

/// Who may descend on whom: on another player who is there, in the same zone, within a radius,
/// where one can stand; by moral 4 within one party and by moral 7 on an enemy; in zones that
/// allow teleports, but for skills 108770 and 208770.
pub proof fn law_who_may_descend(
    target_id: i32,
    magic_num: i32,
    moral: i16,
    radius: i32,
    p: WarpPair,
)
    ensures
        may_descend(target_id, magic_num, moral, radius, p) <==> {
            let one_party = match (p.caster_party, p.target_party) {
                (Some(a), Some(b)) => a == b,
                _ => false,
            };
            let allowed = match p.zone {
                Some(z) => z.teleport,
                None => false,
            };
            &&& 0 <= target_id <= 9999 && target_id != p.caster_sid
            &&& p.present && p.caster_zone == p.target_zone
            &&& radius >= 1 && p.in_radius
            &&& (moral == 4 && one_party) || (moral == 7 && p.hostile)
            &&& allowed || magic_num == 108770 || magic_num == 208770
            &&& p.valid_place
        },
{
}

/// Who may join whom: a player who is there, in the same zone, of the same nation, where one can
/// stand, in zones that allow teleports; skill 500038 not in special battles.
pub proof fn law_who_may_join(target_id: i32, magic_num: i32, p: WarpPair)
    ensures
        may_join(target_id, magic_num, p) <==> {
            let allowed = match p.zone {
                Some(z) => z.teleport,
                None => false,
            };
            &&& 0 <= target_id <= 9999
            &&& p.present && p.caster_zone == p.target_zone
            &&& p.caster_nation == p.target_nation
            &&& magic_num == 500038 ==> !p.special_battle
            &&& allowed && p.valid_place
        },
{
}

/// Who may be called: another member of the party who is there, in the same zone, alive and not
/// blinking, where the zone is known. 490042 calls nobody, 490050 only where friends may be
/// called and not in zone 55, and 109004, 110004, 209004 and 210004 only where friends may
/// teleport.
pub proof fn law_who_may_be_called(target_id: i32, magic_num: i32, p: WarpPair)
    ensures
        may_call(target_id, magic_num, p) <==> {
            let one_party = match (p.caster_party, p.target_party) {
                (Some(a), Some(b)) => a == b,
                _ => false,
            };
            let friend = magic_num == 109004 || magic_num == 110004 || magic_num == 209004
                || magic_num == 210004;
            &&& 0 <= target_id <= 9999 && target_id != p.caster_sid
            &&& p.present && p.caster_zone == p.target_zone && one_party
            &&& !p.target_dead && !p.target_blinking
            &&& match p.zone {
                Some(z) => {
                    &&& magic_num != 490042
                    &&& magic_num == 490050 ==> z.calling_friend && p.caster_zone != 55
                    &&& friend ==> z.teleport_friend
                },
                None => false,
            }
        },
{
}

/// Which monsters skills summon: 490088, 490093, 490096, 490097 and 500202 those of list 1,
/// 492015 those of list 2, and others none.
pub proof fn law_which_monsters_are_summoned(magic_num: i32)
    ensures
        monster_list(magic_num) == Some(1u8) <==> magic_num == 490088 || magic_num == 490093
            || magic_num == 490096 || magic_num == 490097 || magic_num == 500202,
        monster_list(magic_num) == Some(2u8) <==> magic_num == 492015,
        monster_list(magic_num) is Some ==> 1 <= monster_list(magic_num)->0 <= 2,
{
}

/// Where blinks lead to: the first and the third word of the cast, each between 0 and 65535. They
/// work for a caster who stands somewhere, in a zone that allows them, to a place that can be
/// stood on.
pub proof fn law_where_blinks_lead(
    zone: Option<ZoneAbilities>,
    placed: bool,
    valid: bool,
    data: Seq<i32>,
)
    requires
        data.len() == 7,
    ensures
        match blink(zone, placed, valid, data) {
            Some((x, z)) => {
                &&& placed && valid && zone is Some && zone->0.blink_zone
                &&& 0 <= data[0] <= 65535 ==> x == data[0]
                &&& data[0] < 0 ==> x == 0
                &&& data[0] > 65535 ==> x == 65535
                &&& 0 <= data[2] <= 65535 ==> z == data[2]
                &&& data[2] < 0 ==> z == 0
                &&& data[2] > 65535 ==> z == 65535
            },
            None => !placed || !valid || zone is None || !zone->0.blink_zone,
        },
{
}

/// Whom the way home is for: the player who is aimed at, or the caster without one.
pub proof fn law_who_goes_home(target_id: i32, caster_sid: u16)
    ensures
        target_id < 0 ==> home_sid(target_id, caster_sid) == caster_sid,
        0 <= target_id <= 65535 ==> home_sid(target_id, caster_sid) == target_id,
{
}

/// What kicks do: without a distance, and at players, they fail; from 10000 on what is aimed at
/// moves; without a target they are only shown.
pub proof fn law_what_kicks_do(target_id: i32, distance: i32)
    ensures
        kick(target_id, distance) is Failed <==> distance <= 0 || 0 <= target_id <= 9999,
        kick(target_id, distance) is Shown <==> distance >= 1 && target_id < 0,
        distance >= 1 && 10000 <= target_id <= 65535 ==> kick(target_id, distance) == (
        Kick::Moves { sid: target_id as u16 }),
{
}

/// What a teleport skill's outcome is: the caster at the player who is aimed at, that player at
/// the caster, one of the monsters, the place of a blink, someone home, or a kick, each by its
/// kind of warp alone and where it may be; and a failure otherwise.
pub proof fn law_teleports_by_their_kind(
    r: WarpOutcome,
    target_id: i32,
    data: Seq<i32>,
    magic_num: i32,
    moral: i16,
    row: MagicType8Row,
    s: WarpScene,
)
    requires
        is_warp(r, target_id, data, magic_num, moral, Some(row), s),
    ensures
        ({
            let t = row.warp_type;
            match r {
                WarpOutcome::Failed => {
                    &&& t == 25 ==> !may_descend(target_id, magic_num, moral, row.radius, s.pair)
                    &&& t == 27 ==> !may_join(target_id, magic_num, s.pair)
                    &&& t == 12 ==> !may_call(target_id, magic_num, s.pair)
                    &&& t == 21 ==> monster_list(magic_num) is None || !s.placed
                        || s.monsters@.len() == 0
                    &&& t == 20 || t == 26 ==> blink(s.pair.zone, s.placed, s.valid_blink, data)
                        is None
                    &&& t == 1 ==> !s.home_present
                },
                WarpOutcome::ToTarget { sid } => {
                    &&& sid == target_id
                    &&& t == 25 || t == 27
                    &&& t == 25 ==> may_descend(target_id, magic_num, moral, row.radius, s.pair)
                    &&& t == 27 ==> may_join(target_id, magic_num, s.pair)
                },
                WarpOutcome::ToCaster { sid } => t == 12 && sid == target_id && may_call(
                    target_id,
                    magic_num,
                    s.pair,
                ),
                WarpOutcome::Summon { monster } => t == 21 && monster_list(magic_num) is Some
                    && s.placed && s.monsters@.contains(monster),
                WarpOutcome::Blink { place } => (t == 20 || t == 26) && blink(
                    s.pair.zone,
                    s.placed,
                    s.valid_blink,
                    data,
                ) == Some(place),
                WarpOutcome::Home { sid } => t == 1 && s.home_present && sid == home_sid(
                    target_id,
                    s.pair.caster_sid,
                ),
                WarpOutcome::Kicked { sid } => kick(target_id, row.kick_distance) == (Kick::Moves {
                    sid,
                }) && t != 25 && t != 27 && t != 12 && t != 21 && t != 20 && t != 26 && t != 1,
                WarpOutcome::Shown => kick(target_id, row.kick_distance) is Shown && t != 25 && t
                    != 27 && t != 12 && t != 21 && t != 20 && t != 26 && t != 1,
            }
        }),
        !(r is Failed) ==> warp_possible(target_id, magic_num, moral, Some(row), s.pair),
{
}

/// A teleport's cast says that it worked in its second word, and a failed one why in its fourth.
/// A summon's says nothing until the monster has appeared, or has not. Every other word stays.
pub proof fn law_teleports_leave_their_words(
    opcode: u8,
    data: Seq<i32>,
    r: WarpOutcome,
    appeared: bool,
    i: int,
)
    requires
        data.len() == 7,
        0 <= i < 7,
    ensures
        ({
            let words = warp_words(opcode, data, r);
            let later = summon_words(opcode, data, appeared);
            &&& words.len() == 7 && later.len() == 7
            &&& r is Failed ==> {
                &&& opcode == 1 ==> words[3] == -100
                &&& opcode != 1 ==> words[3] == -103
                &&& i != 3 ==> words[i] == data[i]
            }
            &&& r is Summon ==> words[i] == data[i]
            &&& !(r is Failed || r is Summon) ==> words[1] == 1 && (i != 1 ==> words[i]
                == data[i])
            &&& appeared ==> later[1] == 1 && (i != 1 ==> later[i] == data[i])
            &&& !appeared ==> {
                &&& opcode == 1 ==> later[3] == -100
                &&& opcode != 1 ==> later[3] == -103
                &&& i != 3 ==> later[i] == data[i]
            }
        }),
{
}

} // verus!
