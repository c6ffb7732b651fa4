//! Rebirth: its conditions, its price, and its packets.

use crate::arith::min_of;
use crate::constants::WIZ_REBIRTH;
use crate::packet::{u32_bytes, Packet, PacketReader};
use vstd::prelude::*;

verus! {

/// Gold that a rebirth costs.
pub const REBIRTH_GOLD_COST: u32 = 100000000;

/// Loyalty that a rebirth costs.
pub const REBIRTH_LOYALTY_COST: u32 = 10000;

/// Percentage of a level's experience that a rebirth needs.
pub const REBIRTH_EXP_PERCENT: i32 = 100;

/// Kinds of rebirth packets: activation, result, progress and completion.
pub const SUB_ACTIVATE: u8 = 1;
pub const SUB_RESULT: u8 = 2;
pub const SUB_PROGRESS: u8 = 3;
pub const SUB_COMPLETE: u8 = 4;

/// Tell a player that their rebirth begins.
pub fn build_activate() -> (p: Packet)
    ensures
        p.opcode == WIZ_REBIRTH,
        p.data@ == seq![SUB_ACTIVATE],
        p.opcode == 0xD3,
        p.data@ == seq![1u8],
{
    let mut pkt = Packet::new(WIZ_REBIRTH);
    pkt.write_u8(SUB_ACTIVATE);
    assert(pkt.data@ =~= seq![SUB_ACTIVATE]);
    pkt
}

/// Tell a player the result of their request.
pub fn build_result(result: u8) -> (p: Packet)
    ensures
        p.opcode == WIZ_REBIRTH,
        p.data@ == seq![SUB_RESULT, result],
        p.opcode == 0xD3,
        p.data@ == seq![2u8, result],
{
    let mut pkt = Packet::new(WIZ_REBIRTH);
    pkt.write_u8(SUB_RESULT);
    pkt.write_u8(result);
    assert(pkt.data@ =~= seq![SUB_RESULT, result]);
    pkt
}

/// Payload of a player's progress towards a rebirth.
pub open spec fn progress_payload(level_offset: i32, current: i32, max: i32) -> Seq<u8> {
    seq![SUB_PROGRESS] + u32_bytes(level_offset as u32) + u32_bytes(current as u32) + u32_bytes(
        max as u32,
    )
}

/// Show a player's progress towards a rebirth.
pub fn build_progress(level_offset: i32, current: i32, max: i32) -> (p: Packet)
    ensures
        p.opcode == WIZ_REBIRTH,
        p.data@ == progress_payload(level_offset, current, max),
        p.opcode == 0xD3,
{
    let mut pkt = Packet::new(WIZ_REBIRTH);
    pkt.write_u8(SUB_PROGRESS);
    pkt.write_i32(level_offset);
    pkt.write_i32(current);
    pkt.write_i32(max);
    assert(pkt.data@ =~= seq![SUB_PROGRESS] + u32_bytes(level_offset as u32) + u32_bytes(
        current as u32,
    ) + u32_bytes(max as u32));
    pkt
}

/// Payload of a player's new rebirth level.
pub open spec fn complete_payload(rebirth_level: i32) -> Seq<u8> {
    seq![SUB_COMPLETE] + u32_bytes(rebirth_level as u32)
}

/// Tell a player their new rebirth level.
pub fn build_complete(rebirth_level: i32) -> (p: Packet)
    ensures
        p.opcode == WIZ_REBIRTH,
        p.data@ == complete_payload(rebirth_level),
        p.opcode == 0xD3,
{
    let mut pkt = Packet::new(WIZ_REBIRTH);
    pkt.write_u8(SUB_COMPLETE);
    pkt.write_i32(rebirth_level);
    assert(pkt.data@ =~= seq![SUB_COMPLETE] + u32_bytes(rebirth_level as u32));
    pkt
}

/// Whether a payload asks for a rebirth.
pub open spec fn asks_for_rebirth(payload: Seq<u8>) -> bool {
    payload.len() >= 1 && payload[0] == SUB_ACTIVATE
}

/// Whether a payload asks for a rebirth.
pub fn is_rebirth_request(payload: &[u8]) -> (r: bool)
    ensures
        r == asks_for_rebirth(payload@),
{
    let mut reader = PacketReader::new(payload);
    reader.read_u8().unwrap_or(0) == SUB_ACTIVATE
}

/// A character's five stats.
#[derive(Clone, Copy, Debug, PartialEq, Eq, Structural)]
pub struct Stats {
    pub str: u8,
    pub sta: u8,
    pub dex: u8,
    pub intel: u8,
    pub cha: u8,
}

/// What a rebirth reads and changes of a character.
#[derive(Clone, Copy, Debug, PartialEq, Eq, Structural)]
pub struct RebirthState {
    pub level: u8,
    pub exp: u64,
    pub gold: u32,
    pub loyalty: u32,
    pub rebirth_level: u8,
    pub stats: Stats,
    /// The stats at the last rebirth.
    pub rebirth_stats: Stats,
}

/// The percentage of experience that counts: all or nothing, by the experience that the
/// character's level needs.
pub open spec fn exp_percent(exp: u64, required_exp: i64) -> int {
    if required_exp > 0 && exp >= required_exp {
        100
    } else {
        0
    }
}

/// Whether a character can be reborn.
pub open spec fn can_be_reborn(s: RebirthState, required_exp: i64) -> bool {
    &&& exp_percent(s.exp, required_exp) >= REBIRTH_EXP_PERCENT
    &&& s.gold >= REBIRTH_GOLD_COST
    &&& s.loyalty >= REBIRTH_LOYALTY_COST
}

/// A character after a rebirth: the price is paid, the experience is gone, the level starts
/// over, the rebirth level is higher, and the stats of this life are kept.
pub open spec fn reborn(s: RebirthState) -> RebirthState {
    RebirthState {
        level: 1,
        exp: 0,
        gold: (s.gold - REBIRTH_GOLD_COST) as u32,
        loyalty: (s.loyalty - REBIRTH_LOYALTY_COST) as u32,
        rebirth_level: min_of(s.rebirth_level + 1, u8::MAX as int) as u8,
        stats: s.stats,
        rebirth_stats: s.stats,
    }
}

/// Whether a result is that of a request for a rebirth.
pub open spec fn is_rebirth(
    r: Option<u8>,
    after: RebirthState,
    before: RebirthState,
    required_exp: i64,
) -> bool {
    match r {
        Some(level) => can_be_reborn(before, required_exp) && after == reborn(before) && level
            == after.rebirth_level,
        None => !can_be_reborn(before, required_exp) && after == before,
    }
}

/// Rebirth a character, if they can be; the result is the new rebirth level. `required_exp` is
/// the experience that the character's level needs.
pub fn handle_rebirth_request(s: &mut RebirthState, required_exp: i64) -> (r: Option<u8>)
    ensures
        is_rebirth(r, *final(s), *old(s), required_exp),
{
    let percent: i32 = if required_exp > 0 && s.exp >= required_exp as u64 {
        100
    } else {
        0
    };
    if percent < REBIRTH_EXP_PERCENT {
        return None;
    }
    if s.gold < REBIRTH_GOLD_COST {
        return None;
    }
    if s.loyalty < REBIRTH_LOYALTY_COST {
        return None;
    }
    let level: u8 = if s.rebirth_level < u8::MAX {
        s.rebirth_level + 1
    } else {
        u8::MAX
    };
    s.gold = s.gold - REBIRTH_GOLD_COST;
    s.loyalty = s.loyalty - REBIRTH_LOYALTY_COST;
    s.rebirth_level = level;
    s.rebirth_stats = s.stats;
    s.level = 1;
    s.exp = 0;
    Some(level)
}

/// Whether packets are those that answer a request.
pub open spec fn are_answers(r: Seq<Packet>, outcome: Option<u8>) -> bool {
    match outcome {
        Some(level) => r.len() == 2 && r[0].opcode == WIZ_REBIRTH && r[0].data@
            == seq![SUB_ACTIVATE] && r[1].opcode == WIZ_REBIRTH && r[1].data@
            == seq![SUB_COMPLETE] + u32_bytes(level as u32),
        None => r.len() == 1 && r[0].opcode == WIZ_REBIRTH && r[0].data@ == seq![SUB_RESULT, 0u8],
    }
}

/// The packets that answer a request.
pub fn build_answers(outcome: Option<u8>) -> (r: Vec<Packet>)
    ensures
        are_answers(r@, outcome),
{
    let mut answers: Vec<Packet> = Vec::new();
    match outcome {
        Some(level) => {
            answers.push(build_activate());
            answers.push(build_complete(level as i32));
        },
        None => {
            answers.push(build_result(0));
        },
    }
    answers
}

/// Nobody is reborn twice in a row: the experience is gone after the first time.
pub proof fn law_rebirth_needs_new_experience(s: RebirthState, required_exp: i64)
    requires
        can_be_reborn(s, required_exp),
    ensures
        !can_be_reborn(reborn(s), required_exp),
{
}

/// A rebirth costs exactly its price, starts the level over, and never lowers the rebirth
/// level.
pub proof fn law_rebirth_has_its_price(s: RebirthState, required_exp: i64)
    requires
        can_be_reborn(s, required_exp),
    ensures
        reborn(s).gold + REBIRTH_GOLD_COST == s.gold,
        reborn(s).loyalty + REBIRTH_LOYALTY_COST == s.loyalty,
        reborn(s).level == 1,
        s.rebirth_level <= reborn(s).rebirth_level,
        s.rebirth_level < u8::MAX ==> reborn(s).rebirth_level == s.rebirth_level + 1,
{
}

/// Who can be reborn: whoever has the experience of their level, where it asks for any, and
/// 100000000 gold and 10000 loyalty. They pay exactly that, start over at level 1 without
/// experience, go up one rebirth level, at most to 255, and keep their stats, which are also
/// remembered. All others stay as they are.
pub proof fn law_who_can_be_reborn(
    r: Option<u8>,
    after: RebirthState,
    before: RebirthState,
    required_exp: i64,
)
    requires
        is_rebirth(r, after, before, required_exp),
    ensures
        r is Some <==> required_exp >= 1 && before.exp >= required_exp && before.gold >= 100000000
            && before.loyalty >= 10000,
        r is None ==> after == before,
        r is Some ==> {
            &&& before.gold - after.gold == 100000000
            &&& before.loyalty - after.loyalty == 10000
            &&& after.level == 1
            &&& after.exp == 0
            &&& before.rebirth_level < 255 ==> after.rebirth_level - before.rebirth_level == 1
            &&& before.rebirth_level == 255 ==> after.rebirth_level == 255
            &&& after.stats == before.stats
            &&& after.rebirth_stats == before.stats
            &&& r->0 == after.rebirth_level
        },
{
}

/// How rebirth packets are laid out: requests begin with 1; progress is 3 and three numbers of
/// four bytes each; the new level is 4 and one number. A rebirth is answered by 1 and then by
/// the new level, a refused one by 2 and 0.
pub proof fn law_rebirth_packets_are_laid_out(
    payload: Seq<u8>,
    offset: i32,
    current: i32,
    max: i32,
    answers: Seq<Packet>,
    outcome: Option<u8>,
)
    requires
        payload.len() > 0,
        are_answers(answers, outcome),
    ensures
        !asks_for_rebirth(Seq::empty()),
        asks_for_rebirth(payload) <==> payload[0] == 1,
        progress_payload(offset, current, max).len() == 13,
        progress_payload(offset, current, max)[0] == 3,
        progress_payload(offset, current, max).subrange(1, 5) == u32_bytes(offset as u32),
        progress_payload(offset, current, max).subrange(5, 9) == u32_bytes(current as u32),
        progress_payload(offset, current, max).subrange(9, 13) == u32_bytes(max as u32),
        complete_payload(current).len() == 5,
        complete_payload(current)[0] == 4,
        complete_payload(current).subrange(1, 5) == u32_bytes(current as u32),
        match outcome {
            Some(level) => {
                &&& answers.len() == 2
                &&& answers[0].opcode == 0xD3 && answers[0].data@ == seq![1u8]
                &&& answers[1].opcode == 0xD3 && answers[1].data@.len() == 5
                &&& answers[1].data@[0] == 4 && answers[1].data@.subrange(1, 5) == u32_bytes(
                    level as u32,
                )
            },
            None => answers.len() == 1 && answers[0].opcode == 0xD3 && answers[0].data@
                == seq![2u8, 0u8],
        },
{
    assert(progress_payload(offset, current, max).subrange(1, 5) =~= u32_bytes(offset as u32));
    assert(progress_payload(offset, current, max).subrange(5, 9) =~= u32_bytes(current as u32));
    assert(progress_payload(offset, current, max).subrange(9, 13) =~= u32_bytes(max as u32));
    assert(complete_payload(current).subrange(1, 5) =~= u32_bytes(current as u32));
    if outcome is Some {
        assert(answers[1].data@.subrange(1, 5) =~= u32_bytes(outcome->0 as u32));
    }
}

} // verus!
