//! Movement: requests, corrections, limits, and what happens where a player walks.
//!
//! Places are in tenths of a world unit. Distances are floating-point numbers: callers measure
//! them and say in which band they lie.

use crate::arith::max_of;
use crate::constants::{
    ABNORMAL_INVISIBLE, AUTHORITY_GM, NATION_KARUS, WIZ_MERCHANT, WIZ_MOVE, WIZ_NPC_MOVE,
    ZONE_CHAOS_DUNGEON, ZONE_DUNGEON_DEFENCE, ZONE_ELMORAD, ZONE_KARUS, ZONE_MORADON,
};
use crate::cooldown::elapsed;
use crate::packet::{u16_at_front, u16_bytes, u32_bytes, Packet, PacketReader};
use crate::skills::{is_rogue_class, rogue_class};
use vstd::prelude::*;

verus! {

/// What a movement request says of the movement: that it ends, begins, or goes on.
pub const ECHO_FINISH: u8 = 0;
pub const ECHO_START: u8 = 1;
pub const ECHO_MOVE: u8 = 3;

/// Violations in a row that send a player home.
pub const MAX_CAUGHT_COUNT: u8 = 3;

/// Milliseconds within which violations are in a row.
pub const CAUGHT_TIME_WINDOW_MS: u64 = 1100;

/// The rank of a captain, who moves faster than others.
pub const COMMAND_CAPTAIN: u8 = 100;

/// The invisibility that ends by moving.
pub const INVIS_DISPEL_ON_MOVE: u8 = 1;

/// A trap hurts this much, once in this many milliseconds.
pub const TRAP_DAMAGE: i16 = 500;
pub const TRAP_INTERVAL_MS: u64 = 2000;

/// A movement request.
#[derive(Clone, Copy, Debug, PartialEq, Eq, Structural)]
pub struct MoveRequest {
    pub will_x: u16,
    pub will_z: u16,
    pub will_y: u16,
    pub speed: i16,
    pub echo: u8,
    pub cur_x: u16,
    pub cur_z: u16,
    pub cur_y: u16,
}

/// The number at the front of a payload, or 0 where too little is left of it.
pub open spec fn front_u16(s: Seq<u8>) -> u16 {
    if s.len() >= 2 {
        u16_at_front(s)
    } else {
        0u16
    }
}

/// What is left after the number at the front.
pub open spec fn past_u16(s: Seq<u8>) -> Seq<u8> {
    if s.len() >= 2 {
        s.skip(2)
    } else {
        s
    }
}

/// The byte at the front of a payload, or 0 where nothing is left of it.
pub open spec fn front_u8(s: Seq<u8>) -> u8 {
    if s.len() >= 1 {
        s[0]
    } else {
        0u8
    }
}

/// What is left after the byte at the front.
pub open spec fn past_u8(s: Seq<u8>) -> Seq<u8> {
    if s.len() >= 1 {
        s.skip(1)
    } else {
        s
    }
}

/// The request in a payload. Fields that are missing count as 0.
pub open spec fn request_in(s0: Seq<u8>) -> MoveRequest {
    let s1 = past_u16(s0);
    let s2 = past_u16(s1);
    let s3 = past_u16(s2);
    let s4 = past_u16(s3);
    let s5 = past_u8(s4);
    let s6 = past_u16(s5);
    let s7 = past_u16(s6);
    MoveRequest {
        will_x: front_u16(s0),
        will_z: front_u16(s1),
        will_y: front_u16(s2),
        speed: front_u16(s3) as i16,
        echo: front_u8(s4),
        cur_x: front_u16(s5),
        cur_z: front_u16(s6),
        cur_y: front_u16(s7),
    }
}

/// Read a movement request.
pub fn parse_move(payload: &[u8]) -> (r: MoveRequest)
    ensures
        r == request_in(payload@),
{
    let mut reader = PacketReader::new(payload);
    let will_x: u16 = reader.read_u16().unwrap_or(0);
    let will_z: u16 = reader.read_u16().unwrap_or(0);
    let will_y: u16 = reader.read_u16().unwrap_or(0);
    let speed: i16 = reader.read_u16().unwrap_or(0) as i16;
    let echo: u8 = reader.read_u8().unwrap_or(0);
    let cur_x: u16 = reader.read_u16().unwrap_or(0);
    let cur_z: u16 = reader.read_u16().unwrap_or(0);
    let cur_y: u16 = reader.read_u16().unwrap_or(0);
    MoveRequest { will_x, will_z, will_y, speed, echo, cur_x, cur_z, cur_y }
}

/// Whether a request's echo is one that there is.
pub open spec fn echo_ok(echo: u8) -> bool {
    echo == ECHO_FINISH || echo == ECHO_START || echo == ECHO_MOVE
}

/// Check whether a request's echo is one that there is.
pub fn is_valid_echo(echo: u8) -> (r: bool)
    ensures
        r == echo_ok(echo),
{
    echo == ECHO_FINISH || echo == ECHO_START || echo == ECHO_MOVE
}

/// The middle of two coordinates.
pub fn average_packed_coord(a: u16, b: u16) -> (r: u16)
    ensures
        r == (a + b) / 2,
        2 * r <= a + b <= 2 * r + 1,
{
    ((a as u32 + b as u32) / 2) as u16
}

/// A player who moves.
#[derive(Clone, Copy, Debug)]
pub struct Mover {
    pub zone_changing: bool,
    pub dead: bool,
    pub selling: bool,
    pub preparing: bool,
    pub mining: bool,
    pub fishing: bool,
    pub invisibility_type: u8,
    pub abnormal_type: u32,
    pub check_warp: bool,
    pub zone_id: u16,
    pub authority: u8,
    pub class: u16,
    pub fame: u8,
    pub nation: u8,
    pub bind_zone: u8,
    /// Whether the player's nation has a home.
    pub has_home: bool,
}

/// What is remembered of a player's last movements.
#[derive(Clone, Copy, Debug, PartialEq, Eq, Structural)]
pub struct MoveMemory {
    pub old_echo: i8,
    pub old_speed: i16,
    pub old_will_x: u16,
    pub old_will_z: u16,
    pub old_will_y: u16,
    pub caught_count: u8,
    /// When violations were last counted, with the window added.
    pub caught_time: u64,
}

/// The ratio of the squared distance since the last destination to the speed.
#[derive(Clone, Copy, Debug, PartialEq, Eq, Structural)]
pub enum CorrectionBand {
    /// At most 8, or from 10 to below 12.
    Fair,
    /// Above 8 and below 10.
    Long,
    /// 12 and more.
    TooLong,
}

/// Whether a request contradicts itself or the one before: movement without speed, or a second
/// end of movement.
pub open spec fn anomalous(m: MoveMemory, r: MoveRequest) -> bool {
    (r.echo != 0 && r.speed == 0) || (m.old_echo == 0 && r.echo == 0)
}

/// Whether a request leads nowhere.
pub open spec fn stable(r: MoveRequest) -> bool {
    r.will_x == r.cur_x && r.will_z == r.cur_z && r.will_y == r.cur_y
}

/// Whether a request counts as a violation. Game masters are not watched.
pub open spec fn violates(m: MoveMemory, p: Mover, r: MoveRequest) -> bool {
    p.authority != AUTHORITY_GM && !stable(r) && anomalous(m, r)
}

/// The violations in a row, with a new one at `now`.
pub open spec fn caught_count(m: MoveMemory, now: u64) -> int {
    if elapsed(now, m.caught_time) < CAUGHT_TIME_WINDOW_MS {
        m.caught_count + 1
    } else {
        1
    }
}

/// Whether a request is the last violation that is let pass.
pub open spec fn goes_home(m: MoveMemory, p: Mover, r: MoveRequest, now: u64) -> bool {
    violates(m, p, r) && caught_count(m, now) >= MAX_CAUGHT_COUNT
}

/// The zone that is home: where the player is bound, or else their nation's, or else Moradon.
pub open spec fn home_zone(bind_zone: u8, nation: u8, has_home: bool) -> u16 {
    if bind_zone > 0 {
        bind_zone as u16
    } else if has_home {
        if nation == NATION_KARUS {
            ZONE_KARUS
        } else {
            ZONE_ELMORAD
        }
    } else {
        ZONE_MORADON
    }
}

/// Find the zone that is home.
pub fn determine_home_zone_raw(bind_zone: u8, nation: u8, has_home: bool) -> (r: u16)
    ensures
        r == home_zone(bind_zone, nation, has_home),
{
    if bind_zone > 0 {
        return bind_zone as u16;
    }
    if has_home {
        if nation == NATION_KARUS {
            return ZONE_KARUS;
        } else {
            return ZONE_ELMORAD;
        }
    }
    ZONE_MORADON
}

/// The destination before this one, or this one where there was none.
pub open spec fn prior_destination(m: MoveMemory, r: MoveRequest) -> (u16, u16) {
    (
        if m.old_will_x == 0 {
            r.will_x
        } else {
            m.old_will_x
        },
        if m.old_will_z == 0 {
            r.will_z
        } else {
            m.old_will_z
        },
    )
}

/// Find the destination before this one. The distance from there to the new one decides how
/// the new one is corrected.
pub fn previous_destination(m: &MoveMemory, r: &MoveRequest) -> (d: (u16, u16))
    ensures
        d == prior_destination(*m, *r),
{
    let x: u16 = if m.old_will_x == 0 {
        r.will_x
    } else {
        m.old_will_x
    };
    let z: u16 = if m.old_will_z == 0 {
        r.will_z
    } else {
        m.old_will_z
    };
    (x, z)
}

/// A destination.
#[derive(Clone, Copy, Debug, PartialEq, Eq, Structural)]
pub struct Place {
    pub x: u16,
    pub z: u16,
    pub y: u16,
}

/// Halfway from where the player is to where they want to go.
pub open spec fn halfway(r: MoveRequest) -> Place {
    Place {
        x: ((r.will_x + r.cur_x) / 2) as u16,
        z: ((r.will_z + r.cur_z) / 2) as u16,
        y: ((r.will_y + r.cur_y) / 2) as u16,
    }
}

/// The corrected destination: halfway for a start from rest and for a long way, no movement at
/// all for one that is too long.
pub open spec fn corrected(r: MoveRequest, old_speed: i16, band: CorrectionBand) -> Place {
    if old_speed == 0 && r.echo == ECHO_START {
        halfway(r)
    } else if r.speed != 0 && band == CorrectionBand::Long {
        halfway(r)
    } else if r.speed != 0 && band == CorrectionBand::TooLong {
        Place { x: r.cur_x, z: r.cur_z, y: r.cur_y }
    } else {
        Place { x: r.will_x, z: r.will_z, y: r.will_y }
    }
}

/// Correct a destination.
pub fn correct_position(r: &MoveRequest, old_speed: i16, band: CorrectionBand) -> (p: Place)
    ensures
        p == corrected(*r, old_speed, band),
{
    let halve: bool = (old_speed == 0 && r.echo == ECHO_START) || (r.speed != 0 && band
        == CorrectionBand::Long);
    if halve {
        Place {
            x: average_packed_coord(r.will_x, r.cur_x),
            z: average_packed_coord(r.will_z, r.cur_z),
            y: average_packed_coord(r.will_y, r.cur_y),
        }
    } else if r.speed != 0 && band == CorrectionBand::TooLong {
        Place { x: r.cur_x, z: r.cur_z, y: r.cur_y }
    } else {
        Place { x: r.will_x, z: r.will_z, y: r.will_y }
    }
}

/// The fastest that a player may be.
pub open spec fn max_speed(p: Mover) -> i16 {
    let base = p.class % 100;
    if rogue_class(p.class) || p.fame == COMMAND_CAPTAIN || p.zone_id == ZONE_CHAOS_DUNGEON
        || p.zone_id == ZONE_DUNGEON_DEFENCE {
        90i16
    } else if base == 1 || (3 <= base <= 6) || (9 <= base <= 15) {
        67i16
    } else {
        45i16
    }
}

/// Find the fastest that a player may be.
pub fn speed_limit(p: &Mover) -> (r: i16)
    ensures
        r == max_speed(*p),
{
    if is_rogue_class(p.class) || p.fame == COMMAND_CAPTAIN || p.zone_id == ZONE_CHAOS_DUNGEON
        || p.zone_id == ZONE_DUNGEON_DEFENCE {
        90
    } else if matches!(p.class % 100, 1 | 3 | 4 | 5 | 6 | 9 | 10 | 11 | 12 | 13 | 14 | 15) {
        67
    } else {
        45
    }
}

/// Whether a request is faster than its player may be. Game masters are as fast as they like.
pub open spec fn too_fast(p: Mover, speed: i16) -> bool {
    p.authority != AUTHORITY_GM && (speed > max_speed(p) || speed < -max_speed(p))
}

/// What becomes of a request.
#[derive(Clone, Copy, Debug, PartialEq, Eq, Structural)]
pub enum MovePlan {
    /// There is no such echo.
    BadEcho,
    /// The player is between zones, or dead; nothing happens.
    Held,
    /// Too many violations: the player is sent home.
    Home { zone_id: u16 },
    /// The request is too fast and is dropped.
    TooFast,
    /// The player moves, unless the place is out of bounds.
    Moved(MoveStep),
}

/// A movement that takes place.
#[derive(Clone, Copy, Debug, PartialEq, Eq, Structural)]
pub struct MoveStep {
    pub place: Place,
    pub ends_stealth: bool,
    /// Whether nobody near is told.
    pub hidden: bool,
}

/// What else a request does, as soon as the player is free to move.
#[derive(Clone, Copy, Debug, PartialEq, Eq, Structural)]
pub struct MoveOutcome {
    pub plan: MovePlan,
    pub closes_shop: bool,
    pub stops_mining: bool,
    pub stops_fishing: bool,
    /// Whether gates work again that were just walked through.
    pub clears_warp_flag: bool,
}

/// What becomes of a request.
pub open spec fn move_plan(
    m: MoveMemory,
    p: Mover,
    r: MoveRequest,
    band: CorrectionBand,
    now: u64,
) -> MovePlan {
    if !echo_ok(r.echo) {
        MovePlan::BadEcho
    } else if p.zone_changing || p.dead {
        MovePlan::Held
    } else if goes_home(m, p, r, now) {
        MovePlan::Home { zone_id: home_zone(p.bind_zone, p.nation, p.has_home) }
    } else if too_fast(p, r.speed) {
        MovePlan::TooFast
    } else {
        MovePlan::Moved(
            MoveStep {
                place: corrected(r, m.old_speed, band),
                ends_stealth: p.invisibility_type == INVIS_DISPEL_ON_MOVE,
                hidden: p.authority == AUTHORITY_GM && p.abnormal_type == ABNORMAL_INVISIBLE,
            },
        )
    }
}

/// What is remembered after a request. A player who is sent home starts anew with violations,
/// and one who was too fast keeps the destination before.
pub open spec fn memory_after(
    m: MoveMemory,
    p: Mover,
    r: MoveRequest,
    band: CorrectionBand,
    now: u64,
) -> MoveMemory {
    let plan = move_plan(m, p, r, band, now);
    if plan == MovePlan::BadEcho || plan == MovePlan::Held {
        m
    } else {
        let watched = if violates(m, p, r) {
            MoveMemory {
                caught_count: if goes_home(m, p, r, now) {
                    0
                } else {
                    caught_count(m, now) as u8
                },
                caught_time: (now + CAUGHT_TIME_WINDOW_MS) as u64,
                ..m
            }
        } else {
            m
        };
        match plan {
            MovePlan::Home { .. } => watched,
            MovePlan::Moved(s) => MoveMemory {
                old_echo: r.echo as i8,
                old_speed: r.speed,
                old_will_x: s.place.x,
                old_will_z: s.place.z,
                old_will_y: s.place.y,
                ..watched
            },
            _ => MoveMemory { old_echo: r.echo as i8, old_speed: r.speed, ..watched },
        }
    }
}

/// What becomes of a request, with all that it does besides.
pub open spec fn move_outcome(
    m: MoveMemory,
    p: Mover,
    r: MoveRequest,
    band: CorrectionBand,
    now: u64,
) -> MoveOutcome {
    let plan = move_plan(m, p, r, band, now);
    let free = plan != MovePlan::BadEcho && plan != MovePlan::Held;
    MoveOutcome {
        plan,
        closes_shop: free && (p.selling || p.preparing),
        stops_mining: free && p.mining,
        stops_fishing: free && p.fishing,
        clears_warp_flag: free && !(plan is Home) && r.speed != 0 && p.check_warp,
    }
}

/// Decide on a movement request, and remember it.
pub fn plan_move(
    m: &mut MoveMemory,
    p: &Mover,
    r: &MoveRequest,
    band: CorrectionBand,
    now: u64,
) -> (o: MoveOutcome)
    requires
        old(m).caught_count < u8::MAX,
        now <= u64::MAX - CAUGHT_TIME_WINDOW_MS,
    ensures
        o == move_outcome(*old(m), *p, *r, band, now),
        *final(m) == memory_after(*old(m), *p, *r, band, now),
{
    let mut o: MoveOutcome = MoveOutcome {
        plan: MovePlan::BadEcho,
        closes_shop: false,
        stops_mining: false,
        stops_fishing: false,
        clears_warp_flag: false,
    };
    if !is_valid_echo(r.echo) {
        return o;
    }
    if p.zone_changing || p.dead {
        o.plan = MovePlan::Held;
        return o;
    }
    o.closes_shop = p.selling || p.preparing;
    o.stops_mining = p.mining;
    o.stops_fishing = p.fishing;
    let master: bool = p.authority == AUTHORITY_GM;
    let still: bool = r.will_x == r.cur_x && r.will_z == r.cur_z && r.will_y == r.cur_y;
    let odd: bool = (r.echo != 0 && r.speed == 0) || (m.old_echo == 0 && r.echo == 0);
    if !master && !still && odd {
        let since: u64 = if now >= m.caught_time {
            now - m.caught_time
        } else {
            0
        };
        let count: u8 = if since < CAUGHT_TIME_WINDOW_MS {
            m.caught_count + 1
        } else {
            1
        };
        m.caught_count = count;
        m.caught_time = now + CAUGHT_TIME_WINDOW_MS;
        if count >= MAX_CAUGHT_COUNT {
            m.caught_count = 0;
            o.plan = MovePlan::Home {
                zone_id: determine_home_zone_raw(p.bind_zone, p.nation, p.has_home),
            };
            return o;
        }
    }
    let old_speed: i16 = m.old_speed;
    m.old_echo = r.echo as i8;
    m.old_speed = r.speed;
    o.clears_warp_flag = r.speed != 0 && p.check_warp;
    let place: Place = correct_position(r, old_speed, band);
    if !master {
        let limit: i16 = speed_limit(p);
        if r.speed > limit || r.speed < -limit {
            o.plan = MovePlan::TooFast;
            return o;
        }
    }
    m.old_will_x = place.x;
    m.old_will_z = place.z;
    m.old_will_y = place.y;
    o.plan = MovePlan::Moved(
        MoveStep {
            place,
            ends_stealth: p.invisibility_type == INVIS_DISPEL_ON_MOVE,
            hidden: master && p.abnormal_type == ABNORMAL_INVISIBLE,
        },
    );
    o
}

/// Payload of a player's move.
pub open spec fn move_payload(sid: u16, place: Place, speed: i16, echo: u8) -> Seq<u8> {
    (u32_bytes(sid as u32) + u16_bytes(place.x) + u16_bytes(place.z) + u16_bytes(place.y)
        + u16_bytes(speed as u16)).push(echo)
}

/// Tell those near that a player moves.
pub fn build_move(sid: u16, place: &Place, speed: i16, echo: u8) -> (p: Packet)
    ensures
        p.opcode == WIZ_MOVE,
        p.data@ == move_payload(sid, *place, speed, echo),
        p.opcode == 0x06,
{
    let mut pkt = Packet::new(WIZ_MOVE);
    pkt.write_u32(sid as u32);
    pkt.write_u16(place.x);
    pkt.write_u16(place.z);
    pkt.write_u16(place.y);
    pkt.write_i16(speed);
    pkt.write_u8(echo);
    assert(pkt.data@ =~= (u32_bytes(sid as u32) + u16_bytes(place.x) + u16_bytes(place.z)
        + u16_bytes(place.y) + u16_bytes(speed as u16)).push(echo));
    pkt
}

/// Tell those near, or a player who was only preparing themself, that a shop closes.
pub fn build_shop_close(sid: u16) -> (p: Packet)
    ensures
        p.opcode == WIZ_MERCHANT,
        p.data@ == seq![2u8] + u32_bytes(sid as u32),
        p.opcode == 0x68,
        p.data@.len() == 5,
        p.data@[0] == 2,
        p.data@.subrange(1, 5) == u32_bytes(sid as u32),
{
    let mut pkt = Packet::new(WIZ_MERCHANT);
    pkt.write_u8(2);
    pkt.write_u32(sid as u32);
    assert(pkt.data@ =~= seq![2u8] + u32_bytes(sid as u32));
    assert(pkt.data@.subrange(1, 5) =~= u32_bytes(sid as u32));
    pkt
}

/// Whether a gate leads to a war.
pub open spec fn war_gate(zone_id: u16) -> bool {
    61 <= zone_id <= 66
}

/// Whether a gate leads to a war, where every nation has a starting place of its own.
pub fn is_war_gate(zone_id: u16) -> (r: bool)
    ensures
        r == war_gate(zone_id),
{
    zone_id >= 61 && zone_id <= 66
}

/// Walk into a trap: `Some` is the health that is left where it springs.
pub fn spring_trap(last_trap: &mut u64, now: u64, hp: i16) -> (r: Option<i16>)
    ensures
        r == (if elapsed(now, *old(last_trap)) >= TRAP_INTERVAL_MS {
            Some(max_of(hp - TRAP_DAMAGE, 0) as i16)
        } else {
            None
        }),
        *final(last_trap) == (if r is Some {
            now
        } else {
            *old(last_trap)
        }),
        r is Some <==> now >= *old(last_trap) + 2000,
        r is Some && hp > 500 ==> hp - r->0 == 500,
        r is Some && hp <= 500 ==> r->0 == 0,
{
    let since: u64 = if now >= *last_trap {
        now - *last_trap
    } else {
        0
    };
    if since < TRAP_INTERVAL_MS {
        return None;
    }
    *last_trap = now;
    Some((hp as i32 - TRAP_DAMAGE as i32).max(0) as i16)
}

/// A player in the border defence war.
#[derive(Clone, Copy, Debug)]
pub struct AltarCarrier {
    pub event_active: bool,
    /// Whether the player and their position are known.
    pub known: bool,
    pub in_delivery_zone: bool,
    pub in_room: bool,
    pub room_finished: bool,
    /// Whether the room keeps score.
    pub room_scored: bool,
}

/// What walking does with the altar.
#[derive(Clone, Copy, Debug, PartialEq, Eq, Structural)]
pub enum AltarDelivery {
    Nothing,
    /// The altar is laid down, but there is no score to keep.
    LaidDown,
    /// The altar is delivered and scored.
    Delivered,
}

/// Whether a carrier lays the altar down.
pub open spec fn lays_down(c: AltarCarrier, has_altar: bool) -> bool {
    c.event_active && c.known && c.in_delivery_zone && c.in_room && !c.room_finished && has_altar
}

/// What becomes of an altar at its place.
pub open spec fn altar_delivery(c: AltarCarrier, has_altar: bool) -> AltarDelivery {
    if !lays_down(c, has_altar) {
        AltarDelivery::Nothing
    } else if c.room_scored {
        AltarDelivery::Delivered
    } else {
        AltarDelivery::LaidDown
    }
}

/// Deliver the altar where a carrier has brought it to its place.
pub fn bdw_monument_point_process(c: &AltarCarrier, has_altar: &mut bool) -> (r: AltarDelivery)
    ensures
        r == altar_delivery(*c, *old(has_altar)),
        *final(has_altar) == (*old(has_altar) && r == AltarDelivery::Nothing),
{
    if !c.event_active || !c.known || !c.in_delivery_zone || !c.in_room || c.room_finished
        || !*has_altar {
        return AltarDelivery::Nothing;
    }
    *has_altar = false;
    if c.room_scored {
        AltarDelivery::Delivered
    } else {
        AltarDelivery::LaidDown
    }
}

/// Whether the altar comes back after a delivery: unless it has won the war.
pub fn altar_comes_back(winner: Option<u8>) -> (r: bool)
    ensures
        r == (winner is None),
{
    match winner {
        Some(_) => false,
        None => true,
    }
}

/// Whether a pet follows its player.
pub open spec fn follows(speed: i16, far: bool, same_place: bool) -> bool {
    !same_place && (speed == 0 || far)
}

/// Whether a pet follows its player: when the player stands, or is far away. A pet at the same
/// place stays.
pub fn pet_follows(speed: i16, far: bool, same_place: bool) -> (r: bool)
    ensures
        r == follows(speed, far, same_place),
{
    !same_place && (speed == 0 || far)
}

/// Payload of a pet's move.
pub open spec fn pet_payload(pet_id: u32, x10: u16, z10: u16, distance10: u16) -> Seq<u8> {
    seq![1u8] + u32_bytes(pet_id) + u16_bytes(x10) + u16_bytes(z10) + u16_bytes(0) + u16_bytes(
        distance10,
    )
}

/// Tell those near that a pet moves. Its speed is its distance.
pub fn build_pet_move(pet_id: u32, x10: u16, z10: u16, distance10: u16) -> (p: Packet)
    ensures
        p.opcode == WIZ_NPC_MOVE,
        p.data@ == pet_payload(pet_id, x10, z10, distance10),
        p.opcode == 0x0B,
{
    let mut pkt = Packet::new(WIZ_NPC_MOVE);
    pkt.write_u8(1);
    pkt.write_u32(pet_id);
    pkt.write_u16(x10);
    pkt.write_u16(z10);
    pkt.write_u16(0);
    pkt.write_u16(distance10);
    assert(pkt.data@ =~= seq![1u8] + u32_bytes(pet_id) + u16_bytes(x10) + u16_bytes(z10)
        + u16_bytes(0) + u16_bytes(distance10));
    pkt
}

/// The count of violations never reaches the limit: whoever reaches it goes home with none.
pub proof fn law_violations_stay_below_the_limit(
    m: MoveMemory,
    p: Mover,
    r: MoveRequest,
    band: CorrectionBand,
    now: u64,
)
    requires
        m.caught_count < MAX_CAUGHT_COUNT,
    ensures
        memory_after(m, p, r, band, now).caught_count < MAX_CAUGHT_COUNT,
{
}

/// Game masters are never sent home and never too fast.
pub proof fn law_masters_move_freely(
    m: MoveMemory,
    p: Mover,
    r: MoveRequest,
    band: CorrectionBand,
    now: u64,
)
    requires
        p.authority == AUTHORITY_GM,
        echo_ok(r.echo),
        !p.zone_changing,
        !p.dead,
    ensures
        move_plan(m, p, r, band, now) is Moved,
{
}

/// Nobody but a game master moves faster than they may.
pub proof fn law_speed_is_limited(
    m: MoveMemory,
    p: Mover,
    r: MoveRequest,
    band: CorrectionBand,
    now: u64,
)
    requires
        move_plan(m, p, r, band, now) is Moved,
        p.authority != AUTHORITY_GM,
    ensures
        -90 <= -max_speed(p) <= r.speed <= max_speed(p) <= 90,
{
}

/// A corrected destination lies between where the player is and where they want to go, or is
/// one of the two.
pub proof fn law_corrections_stay_between(r: MoveRequest, old_speed: i16, band: CorrectionBand)
    ensures
        ({
            let p = corrected(r, old_speed, band);
            &&& (r.cur_x <= p.x <= r.will_x || r.will_x <= p.x <= r.cur_x)
            &&& (r.cur_z <= p.z <= r.will_z || r.will_z <= p.z <= r.cur_z)
            &&& (r.cur_y <= p.y <= r.will_y || r.will_y <= p.y <= r.cur_y)
        }),
{
}

/// The dead do not move, and neither does anyone between zones; nothing is remembered of it.
pub proof fn law_the_dead_stay(
    m: MoveMemory,
    p: Mover,
    r: MoveRequest,
    band: CorrectionBand,
    now: u64,
)
    requires
        p.dead || p.zone_changing,
    ensures
        !(move_plan(m, p, r, band, now) is Moved),
        memory_after(m, p, r, band, now) == m,
{
}

/// An altar is delivered once: whoever has laid it down delivers nothing until they carry
/// another.
pub proof fn law_altars_are_delivered_once(c: AltarCarrier)
    ensures
        !lays_down(c, false),
{
}

/// Where a start from rest or a long way is corrected, the place is the middle on each of the
/// three axes, rounded down. A way that is too long leads nowhere, and any other is gone as it
/// was asked for.
pub proof fn law_corrections_halve_every_axis(
    r: MoveRequest,
    old_speed: i16,
    band: CorrectionBand,
)
    ensures
        ({
            let p = corrected(r, old_speed, band);
            let starts = old_speed == 0 && r.echo == 1;
            &&& starts || (r.speed != 0 && band is Long) ==> {
                &&& 2 * p.x <= r.will_x + r.cur_x <= 2 * p.x + 1
                &&& 2 * p.z <= r.will_z + r.cur_z <= 2 * p.z + 1
                &&& 2 * p.y <= r.will_y + r.cur_y <= 2 * p.y + 1
            }
            &&& !starts && r.speed != 0 && band is TooLong ==> p.x == r.cur_x && p.z == r.cur_z
                && p.y == r.cur_y
            &&& !starts && (r.speed == 0 || band is Fair) ==> p.x == r.will_x && p.z == r.will_z
                && p.y == r.will_y
        }),
{
}

/// Two bytes are a number with the lower byte first.
pub open spec fn low_first(low: u8, high: u8) -> int {
    low + 256 * high
}

/// A whole request is fifteen bytes: the destination's three axes, the speed, the echo, and the
/// three axes of where the player is, each number of two bytes with the lower one first.
pub proof fn law_requests_are_laid_out(s: Seq<u8>)
    requires
        s.len() >= 15,
    ensures
        ({
            let r = request_in(s);
            &&& r.will_x == low_first(s[0], s[1])
            &&& r.will_z == low_first(s[2], s[3])
            &&& r.will_y == low_first(s[4], s[5])
            &&& r.speed >= 0 ==> r.speed == low_first(s[6], s[7])
            &&& r.speed < 0 ==> r.speed + 65536 == low_first(s[6], s[7])
            &&& r.echo == s[8]
            &&& r.cur_x == low_first(s[9], s[10])
            &&& r.cur_z == low_first(s[11], s[12])
            &&& r.cur_y == low_first(s[13], s[14])
        }),
{
    let s1 = s.skip(2);
    let s2 = s1.skip(2);
    let s3 = s2.skip(2);
    let s4 = s3.skip(2);
    let s5 = s4.skip(1);
    let s6 = s5.skip(2);
    let s7 = s6.skip(2);
    assert(s1[0] == s[2] && s1[1] == s[3]);
    assert(s2[0] == s[4] && s2[1] == s[5]);
    assert(s3[0] == s[6] && s3[1] == s[7]);
    assert(s4[0] == s[8]);
    assert(s5[0] == s[9] && s5[1] == s[10]);
    assert(s6[0] == s[11] && s6[1] == s[12]);
    assert(s7[0] == s[13] && s7[1] == s[14]);
    let v = front_u16(s3);
    assert(v == low_first(s[6], s[7]));
    assert((v as i16) >= 0i16 ==> (v as i16) == v) by (bit_vector);
    assert((v as i16) < 0i16 ==> (v as i16) + 65536 == v) by (bit_vector);
}

/// An empty payload asks to stop at the origin: what is missing counts as 0.
pub proof fn law_missing_fields_are_0(s: Seq<u8>)
    requires
        s.len() == 0,
    ensures
        ({
            let r = request_in(s);
            &&& r.will_x == 0 && r.will_z == 0 && r.will_y == 0
            &&& r.cur_x == 0 && r.cur_z == 0 && r.cur_y == 0
            &&& r.speed == 0 && r.echo == 0
        }),
{
    let zero: u16 = 0;
    assert(zero as i16 == 0i16) by (bit_vector)
        requires
            zero == 0u16,
    ;
}

/// What counts as a violation: movement without speed, or a second end of movement, by anyone
/// but a game master who asks to go somewhere else. Violations within 1100 milliseconds of the
/// time that the last one left behind are counted on, others start at 1, and the third sends
/// the player home.
pub proof fn law_violations_are_counted(
    m: MoveMemory,
    p: Mover,
    r: MoveRequest,
    band: CorrectionBand,
    now: u64,
)
    requires
        r.echo == 0 || r.echo == 1 || r.echo == 3,
        !p.zone_changing,
        !p.dead,
        m.caught_count < 3,
        now <= u64::MAX - 1100,
    ensures
        ({
            let caught = p.authority != 0 && !(r.will_x == r.cur_x && r.will_z == r.cur_z
                && r.will_y == r.cur_y) && (if r.echo == 0 {
                m.old_echo == 0
            } else {
                r.speed == 0
            });
            let count = if now < m.caught_time + 1100 {
                m.caught_count + 1
            } else {
                1
            };
            let plan = move_plan(m, p, r, band, now);
            let after = memory_after(m, p, r, band, now);
            &&& plan is Home <==> caught && count == 3
            &&& caught ==> after.caught_time == now + 1100
            &&& caught && count < 3 ==> after.caught_count == count
            &&& caught && count == 3 ==> after == (MoveMemory {
                caught_count: 0,
                caught_time: after.caught_time,
                ..m
            })
            &&& !caught ==> after.caught_count == m.caught_count && after.caught_time
                == m.caught_time
        }),
{
}

/// Home is where the player is bound; without that it is zone 1 for Karus and zone 2 for
/// others where their nation has a home, and zone 21 where it has none.
pub proof fn law_where_home_is(
    m: MoveMemory,
    p: Mover,
    r: MoveRequest,
    band: CorrectionBand,
    now: u64,
)
    ensures
        match move_plan(m, p, r, band, now) {
            MovePlan::Home { zone_id } => {
                &&& p.bind_zone > 0 ==> zone_id == p.bind_zone
                &&& p.bind_zone == 0 && p.has_home && p.nation == 1 ==> zone_id == 1
                &&& p.bind_zone == 0 && p.has_home && p.nation != 1 ==> zone_id == 2
                &&& p.bind_zone == 0 && !p.has_home ==> zone_id == 21
            },
            _ => true,
        },
{
}

/// Who may be how fast: 90 for rogues, captains and everyone in the two dungeons, 67 for the
/// other jobs, and 45 for whoever has none. The limit holds forwards and backwards alike, and
/// faster requests are dropped.
pub proof fn law_speed_goes_by_job(
    m: MoveMemory,
    p: Mover,
    r: MoveRequest,
    band: CorrectionBand,
    now: u64,
)
    ensures
        ({
            let job = p.class % 100;
            let fast = job == 2 || job == 7 || job == 8 || p.fame == 100 || p.zone_id == 85
                || p.zone_id == 89;
            &&& fast ==> max_speed(p) == 90
            &&& !fast && 1 <= job <= 15 ==> max_speed(p) == 67
            &&& !fast && (job == 0 || job > 15) ==> max_speed(p) == 45
            &&& move_plan(m, p, r, band, now) is TooFast ==> p.authority != 0 && (r.speed
                > max_speed(p) || -r.speed > max_speed(p))
            &&& p.authority != 0 && (r.speed > max_speed(p) || -r.speed > max_speed(p)) ==> !(
            move_plan(m, p, r, band, now) is Moved)
        }),
{
}

/// Which requests are taken up: those with an echo of 0, 1 or 3 by a player who lives and is
/// in a zone. They close the shop and stop mining and fishing; one that goes somewhere, and not
/// home, lets gates work again. Others do nothing at all.
pub proof fn law_requests_that_are_taken_up(
    m: MoveMemory,
    p: Mover,
    r: MoveRequest,
    band: CorrectionBand,
    now: u64,
)
    ensures
        ({
            let o = move_outcome(m, p, r, band, now);
            let taken = (r.echo == 0 || r.echo == 1 || r.echo == 3) && !p.zone_changing
                && !p.dead;
            &&& o.plan == move_plan(m, p, r, band, now)
            &&& o.plan is BadEcho <==> r.echo == 2 || r.echo > 3
            &&& o.plan is Held ==> p.zone_changing || p.dead
            &&& taken <==> !(o.plan is BadEcho) && !(o.plan is Held)
            &&& o.closes_shop <==> taken && (p.selling || p.preparing)
            &&& o.stops_mining <==> taken && p.mining
            &&& o.stops_fishing <==> taken && p.fishing
            &&& o.clears_warp_flag <==> taken && !(o.plan is Home) && r.speed != 0 && p.check_warp
        }),
{
}

/// A step goes to the corrected place and is remembered with it, with its echo and its speed.
/// It ends the invisibility of type 1 and no other, and is hidden for invisible game masters
/// alone. A request that is too fast leaves only its echo and speed behind.
pub proof fn law_steps_are_remembered(
    m: MoveMemory,
    p: Mover,
    r: MoveRequest,
    band: CorrectionBand,
    now: u64,
)
    ensures
        ({
            let after = memory_after(m, p, r, band, now);
            match move_plan(m, p, r, band, now) {
                MovePlan::Moved(s) => {
                    &&& s.place == corrected(r, m.old_speed, band)
                    &&& s.ends_stealth == (p.invisibility_type == 1)
                    &&& s.hidden == (p.authority == 0 && p.abnormal_type == 0)
                    &&& after.old_echo == r.echo
                    &&& after.old_speed == r.speed
                    &&& after.old_will_x == s.place.x
                    &&& after.old_will_z == s.place.z
                    &&& after.old_will_y == s.place.y
                },
                MovePlan::TooFast => {
                    &&& after.old_echo == r.echo
                    &&& after.old_speed == r.speed
                    &&& after.old_will_x == m.old_will_x
                    &&& after.old_will_z == m.old_will_z
                    &&& after.old_will_y == m.old_will_y
                },
                MovePlan::Home { .. } => {
                    &&& after.old_echo == m.old_echo
                    &&& after.old_speed == m.old_speed
                    &&& after.old_will_x == m.old_will_x
                    &&& after.old_will_z == m.old_will_z
                    &&& after.old_will_y == m.old_will_y
                },
                _ => after == m,
            }
        }),
{
}

/// The distance is measured from the last destination, axis by axis; an axis of 0 stands for
/// none, and is measured from the new one.
pub proof fn law_distances_start_at_the_last_destination(m: MoveMemory, r: MoveRequest)
    ensures
        m.old_will_x != 0 ==> prior_destination(m, r).0 == m.old_will_x,
        m.old_will_x == 0 ==> prior_destination(m, r).0 == r.will_x,
        m.old_will_z != 0 ==> prior_destination(m, r).1 == m.old_will_z,
        m.old_will_z == 0 ==> prior_destination(m, r).1 == r.will_z,
{
}

/// An altar is laid down by a carrier of the running event in its room, at the place for it,
/// while the room is not decided, and under no other circumstances.
pub proof fn law_where_altars_are_laid_down(c: AltarCarrier, has_altar: bool)
    ensures
        lays_down(c, has_altar) ==> has_altar && c.event_active && c.known && c.in_delivery_zone
            && c.in_room && !c.room_finished,
        has_altar && c.event_active && c.known && c.in_delivery_zone && c.in_room
            && !c.room_finished ==> lays_down(c, has_altar),
{
}

/// How moves are laid out: a player's in 13 bytes, with the session in four, the place's x, z and
/// y and the speed in two each, and the echo; a pet's in 13, with 1, its number in four, x and z
/// in two each, two zeros, and its distance in two.
pub proof fn law_moves_are_laid_out(
    sid: u16,
    place: Place,
    speed: i16,
    echo: u8,
    pet_id: u32,
    x10: u16,
    z10: u16,
    distance10: u16,
)
    ensures
        ({
            let p = move_payload(sid, place, speed, echo);
            let q = pet_payload(pet_id, x10, z10, distance10);
            &&& p.len() == 13 && q.len() == 13
            &&& p.subrange(0, 4) == u32_bytes(sid as u32)
            &&& p.subrange(4, 6) == u16_bytes(place.x)
            &&& p.subrange(6, 8) == u16_bytes(place.z)
            &&& p.subrange(8, 10) == u16_bytes(place.y)
            &&& p.subrange(10, 12) == u16_bytes(speed as u16)
            &&& p[12] == echo
            &&& q[0] == 1
            &&& q.subrange(1, 5) == u32_bytes(pet_id)
            &&& q.subrange(5, 7) == u16_bytes(x10)
            &&& q.subrange(7, 9) == u16_bytes(z10)
            &&& q.subrange(9, 11) == u16_bytes(0)
            &&& q.subrange(11, 13) == u16_bytes(distance10)
        }),
{
    let p = move_payload(sid, place, speed, echo);
    let q = pet_payload(pet_id, x10, z10, distance10);
    assert(p.subrange(0, 4) =~= u32_bytes(sid as u32));
    assert(p.subrange(4, 6) =~= u16_bytes(place.x));
    assert(p.subrange(6, 8) =~= u16_bytes(place.z));
    assert(p.subrange(8, 10) =~= u16_bytes(place.y));
    assert(p.subrange(10, 12) =~= u16_bytes(speed as u16));
    assert(q.subrange(1, 5) =~= u32_bytes(pet_id));
    assert(q.subrange(5, 7) =~= u16_bytes(x10));
    assert(q.subrange(7, 9) =~= u16_bytes(z10));
    assert(q.subrange(9, 11) =~= u16_bytes(0));
    assert(q.subrange(11, 13) =~= u16_bytes(distance10));
}

/// Gates to zones 61 to 66 lead to a war. A pet follows a player who stands or is far away, and
/// stays where it is at the same place. An altar is laid down where it may be, and delivered
/// where the room keeps score.
pub proof fn law_gates_pets_and_altars(
    zone_id: u16,
    speed: i16,
    far: bool,
    same_place: bool,
    c: AltarCarrier,
    has_altar: bool,
)
    ensures
        war_gate(zone_id) <==> zone_id == 61 || zone_id == 62 || zone_id == 63 || zone_id == 64
            || zone_id == 65 || zone_id == 66,
        same_place ==> !follows(speed, far, same_place),
        !same_place ==> (follows(speed, far, same_place) <==> speed == 0 || far),
        altar_delivery(c, has_altar) is Nothing <==> !has_altar || !c.event_active || !c.known
            || !c.in_delivery_zone || !c.in_room || c.room_finished,
        altar_delivery(c, has_altar) is Delivered ==> c.room_scored,
        altar_delivery(c, has_altar) is LaidDown ==> !c.room_scored,
{
}

/// A request may end early: what is there is read from its place, and what is missing counts as
/// 0. The echo is the ninth byte alone.
pub proof fn law_requests_may_end_early(s: Seq<u8>)
    ensures
        ({
            let r = request_in(s);
            &&& s.len() == 2 ==> r.will_x == low_first(s[0], s[1]) && r.will_z == 0
            &&& s.len() == 4 ==> r.will_z == low_first(s[2], s[3]) && r.will_y == 0
            &&& s.len() == 6 ==> r.will_y == low_first(s[4], s[5])
            &&& s.len() == 8 ==> r.echo == 0 && r.cur_x == 0
            &&& s.len() == 9 ==> r.echo == s[8] && r.cur_x == 0 && r.cur_z == 0 && r.cur_y == 0
            &&& s.len() == 11 ==> r.cur_x == low_first(s[9], s[10]) && r.cur_z == 0 && r.cur_y == 0
            &&& s.len() == 13 ==> r.cur_z == low_first(s[11], s[12]) && r.cur_y == 0
        }),
{
}

} // verus!
