//! A skill use as it travels on the wire.

use crate::packet::{
    i32_run_bytes, lemma_i32_run_len, lemma_i32_run_word, law_u32_round_trip, u32_at_front,
    u32_bytes, Packet, PacketReader,
};
use crate::constants::{
    MAGIC_CASTING, MAGIC_FAIL, NPC_BAND, SKILLMAGIC_FAIL_CASTING, SKILLMAGIC_FAIL_NOEFFECT,
    WIZ_MAGIC_PROCESS,
};
use vstd::prelude::*;

verus! {

/// A skill use: who casts what at whom, with seven data words.
///
/// Caster and target keep all their 32 bits, and a negative id is sign-extended on the wire.
#[derive(Clone, Copy, Debug)]
pub struct MagicInstance {
    pub opcode: u8,
    pub skill_id: u32,
    pub caster_id: i32,
    pub target_id: i32,
    pub data: [i32; 7],
}

/// Whether two casts differ in their data words at most.
pub open spec fn same_cast(a: MagicInstance, b: MagicInstance) -> bool {
    &&& a.opcode == b.opcode
    &&& a.skill_id == b.skill_id
    &&& a.caster_id == b.caster_id
    &&& a.target_id == b.target_id
}

/// Payload of a skill packet.
pub open spec fn skill_payload(
    opcode: u8,
    skill_id: u32,
    caster_id: i32,
    target_id: i32,
    data: Seq<i32>,
) -> Seq<u8> {
    seq![opcode] + u32_bytes(skill_id) + u32_bytes(caster_id as u32) + u32_bytes(target_id as u32)
        + i32_run_bytes(data)
}

/// The 32-bit word at byte `at`, or 0 where the payload ends before the word does.
pub open spec fn word_or_zero(payload: Seq<u8>, at: int) -> u32 {
    if payload.len() >= at + 4 {
        u32_at_front(payload.skip(at))
    } else {
        0
    }
}

/// The byte at the front, or 0 where the payload is empty.
pub open spec fn byte_or_zero(payload: Seq<u8>) -> u8 {
    if payload.len() >= 1 {
        payload[0]
    } else {
        0
    }
}

/// Build a skill packet from its parts.
fn build_skill_packet(
    opcode: u8,
    skill_id: u32,
    caster_id: i32,
    target_id: i32,
    data: &[i32; 7],
) -> (p: Packet)
    ensures
        p.opcode == WIZ_MAGIC_PROCESS,
        p.data@ == skill_payload(opcode, skill_id, caster_id, target_id, data@),
{
    let mut pkt = Packet::new(WIZ_MAGIC_PROCESS);
    pkt.write_u8(opcode);
    assert(pkt.data@ =~= seq![opcode]);
    pkt.write_u32(skill_id);
    pkt.write_u32(caster_id as u32);
    pkt.write_u32(target_id as u32);
    pkt.write_data_words(data);
    pkt
}

impl MagicInstance {
    /// The packet that shows this skill use to others, under the given magic opcode.
    pub fn build_packet(&self, opcode: u8) -> (p: Packet)
        ensures
            p.opcode == WIZ_MAGIC_PROCESS,
            p.data@ == skill_payload(
                opcode,
                self.skill_id,
                self.caster_id,
                self.target_id,
                self.data@,
            ),
    {
        build_skill_packet(opcode, self.skill_id, self.caster_id, self.target_id, &self.data)
    }

    /// The packet that tells the caster that the skill failed.
    pub fn build_fail_packet(&self) -> (p: Packet)
        ensures
            p.opcode == WIZ_MAGIC_PROCESS,
            p.data@ == skill_payload(
                MAGIC_FAIL,
                self.skill_id,
                self.caster_id,
                self.target_id,
                self.data@,
            ),
    {
        self.build_packet(MAGIC_FAIL)
    }

    /// Record the reason of a failure in the fourth data word and build the fail packet: a
    /// failed cast while casting, no effect in any other phase.
    pub fn send_skill_failed(&mut self) -> (p: Packet)
        ensures
            final(self).opcode == old(self).opcode,
            final(self).skill_id == old(self).skill_id,
            final(self).caster_id == old(self).caster_id,
            final(self).target_id == old(self).target_id,
            final(self).data@ == old(self).data@.update(3, fail_reason(old(self).opcode)),
            p.opcode == WIZ_MAGIC_PROCESS,
            p.data@ == skill_payload(
                MAGIC_FAIL,
                old(self).skill_id,
                old(self).caster_id,
                old(self).target_id,
                final(self).data@,
            ),
    {
        self.data[3] = if self.opcode == MAGIC_CASTING {
            SKILLMAGIC_FAIL_CASTING
        } else {
            SKILLMAGIC_FAIL_NOEFFECT
        };
        self.build_fail_packet()
    }
}

/// The reason code of a failure in the given phase.
pub open spec fn fail_reason(opcode: u8) -> i32 {
    if opcode == MAGIC_CASTING {
        SKILLMAGIC_FAIL_CASTING
    } else {
        SKILLMAGIC_FAIL_NOEFFECT
    }
}

/// The fail packet of a request that was refused before it became a skill use.
pub fn build_skill_failed_packet(
    skill_id: u32,
    caster_id: i32,
    target_id: i32,
    data: &[i32; 7],
) -> (p: Packet)
    ensures
        p.opcode == WIZ_MAGIC_PROCESS,
        p.data@ == skill_payload(MAGIC_FAIL, skill_id, caster_id, target_id, data@),
{
    build_skill_packet(MAGIC_FAIL, skill_id, caster_id, target_id, data)
}

/// What a payload says, with 0 for everything that it is too short to hold.
pub open spec fn parsed(payload: Seq<u8>, m: MagicInstance) -> bool {
    &&& m.opcode == byte_or_zero(payload)
    &&& m.skill_id == word_or_zero(payload, 1)
    &&& m.caster_id == word_or_zero(payload, 5) as i32
    &&& m.target_id == word_or_zero(payload, 9) as i32
    &&& forall|i: int|
        0 <= i < 7 ==> #[trigger] m.data@[i] == word_or_zero(payload, 13 + 4 * i) as i32
}

/// Read the next word of a request, or 0 where fewer than four bytes are left.
fn next_word(reader: &mut PacketReader) -> (w: u32)
    ensures
        w == word_or_zero(old(reader)@, 0),
        old(reader)@.len() < 4 ==> final(reader)@ == old(reader)@,
        old(reader)@.len() >= 4 ==> final(reader)@ == old(reader)@.skip(4),
{
    assert(reader@.skip(0) =~= reader@);
    match reader.read_u32() {
        Some(v) => v,
        None => 0,
    }
}

/// Where a reader stands after it has tried to read up to byte `at` of `payload`: there, or
/// short of it with less than a word left.
spec fn at_byte(rest: Seq<u8>, payload: Seq<u8>, at: int) -> bool {
    if payload.len() >= at {
        rest == payload.skip(at)
    } else {
        rest.len() < 4
    }
}

/// Reading a word moves a reader on by four bytes, and gives the word that stands there.
proof fn lemma_word_step(before: Seq<u8>, after: Seq<u8>, payload: Seq<u8>, at: int)
    requires
        0 <= at,
        at_byte(before, payload, at),
        before.len() < 4 ==> after == before,
        before.len() >= 4 ==> after == before.skip(4),
    ensures
        at_byte(after, payload, at + 4),
        word_or_zero(before, 0) == word_or_zero(payload, at),
{
    assert(before.skip(0) =~= before);
    if payload.len() >= at + 4 {
        assert(payload.skip(at).skip(4) =~= payload.skip(at + 4));
    }
}

/// Read a skill request.
pub fn parse_request(payload: &[u8]) -> (m: MagicInstance)
    ensures
        parsed(payload@, m),
{
    let mut reader = PacketReader::new(payload);
    let opcode: u8 = match reader.read_u8() {
        Some(v) => v,
        None => 0,
    };
    let ghost r1 = reader@;
    assert(at_byte(r1, payload@, 1));
    let skill_id: u32 = next_word(&mut reader);
    let ghost r2 = reader@;
    proof {
        lemma_word_step(r1, r2, payload@, 1);
    }
    let caster_id: i32 = next_word(&mut reader) as i32;
    let ghost r3 = reader@;
    proof {
        lemma_word_step(r2, r3, payload@, 5);
    }
    let target_id: i32 = next_word(&mut reader) as i32;
    proof {
        lemma_word_step(r3, reader@, payload@, 9);
    }
    let mut data: [i32; 7] = [0, 0, 0, 0, 0, 0, 0];
    let mut i: usize = 0;
    while i < 7
        invariant
            0 <= i <= 7,
            at_byte(reader@, payload@, 13 + 4 * i),
            forall|j: int|
                0 <= j < i ==> #[trigger] data@[j] == word_or_zero(payload@, 13 + 4 * j) as i32,
        decreases 7 - i,
    {
        let ghost before = reader@;
        let w: u32 = next_word(&mut reader);
        proof {
            lemma_word_step(before, reader@, payload@, 13 + 4 * i as int);
        }
        data[i] = w as i32;
        i = i + 1;
    }
    MagicInstance { opcode, skill_id, caster_id, target_id, data }
}

/// The caster that a request names must be the session that sent it. Session ids are 16 bits
/// wide and lie below the ids of NPCs.
pub fn caster_is_session(caster_id: i32, sid: u16) -> (r: bool)
    ensures
        r == (0 <= caster_id < NPC_BAND && caster_id == sid),
{
    let raw: u32 = caster_id as u32;
    assert(caster_id < 0 ==> raw >= 0x8000_0000u32) by (bit_vector)
        requires
            raw == caster_id as u32,
    ;
    assert(raw < 10000u32 ==> (raw & 0xFFFFu32) as u16 == raw) by (bit_vector);
    (raw & 0xFFFF) as u16 == sid && raw < NPC_BAND
}

/// Whether an id names an NPC. The id of no target at all, `-1`, counts as one here.
pub open spec fn npc_id(target_id: i32) -> bool {
    target_id < 0 || target_id >= NPC_BAND
}

/// Whether an id, read as unsigned, lies in the range of NPCs.
pub fn is_npc_id(target_id: i32) -> (r: bool)
    ensures
        r == npc_id(target_id),
{
    let raw: u32 = target_id as u32;
    assert(target_id < 0 ==> raw >= 0x8000_0000u32) by (bit_vector)
        requires
            raw == target_id as u32,
    ;
    raw >= NPC_BAND
}

/// Whether an id names a player session.
pub open spec fn player_id(target_id: i32) -> bool {
    0 <= target_id < NPC_BAND
}

/// Whether an id names a player session.
pub fn is_player_id(target_id: i32) -> (r: bool)
    ensures
        r == player_id(target_id),
{
    target_id >= 0 && !is_npc_id(target_id)
}

/// A skill packet is 41 bytes long.
pub proof fn law_skill_packet_size(
    opcode: u8,
    skill_id: u32,
    caster_id: i32,
    target_id: i32,
    data: Seq<i32>,
)
    requires
        data.len() == 7,
    ensures
        skill_payload(opcode, skill_id, caster_id, target_id, data).len() == 41,
{
    lemma_i32_run_len(data);
}

/// What a server reads from a skill packet is what was put into it.
pub proof fn law_skill_packet_round_trip(sent: MagicInstance, opcode: u8, got: MagicInstance)
    requires
        parsed(
            skill_payload(opcode, sent.skill_id, sent.caster_id, sent.target_id, sent.data@),
            got,
        ),
    ensures
        got.opcode == opcode,
        got.skill_id == sent.skill_id,
        got.caster_id == sent.caster_id,
        got.target_id == sent.target_id,
        got.data@ == sent.data@,
{
    let data = sent.data@;
    let payload = skill_payload(opcode, sent.skill_id, sent.caster_id, sent.target_id, data);
    law_skill_packet_size(opcode, sent.skill_id, sent.caster_id, sent.target_id, data);
    let tail = i32_run_bytes(data);
    lemma_i32_run_len(data);
    let target = u32_bytes(sent.target_id as u32);
    let caster = u32_bytes(sent.caster_id as u32);
    assert(payload.skip(1) =~= u32_bytes(sent.skill_id) + (caster + target + tail));
    assert(payload.skip(5) =~= caster + (target + tail));
    assert(payload.skip(9) =~= target + tail);
    law_u32_round_trip(sent.skill_id, caster + target + tail);
    law_u32_round_trip(sent.caster_id as u32, target + tail);
    law_u32_round_trip(sent.target_id as u32, tail);
    let c = sent.caster_id;
    let t = sent.target_id;
    assert((c as u32) as i32 == c) by (bit_vector);
    assert((t as u32) as i32 == t) by (bit_vector);
    assert forall|i: int| 0 <= i < 7 implies got.data@[i] == data[i] by {
        lemma_i32_run_word(data, i);
        let at = 13 + 4 * i;
        let rest = payload.skip(at + 4);
        assert(payload.skip(at) =~= tail.subrange(4 * i, 4 * i + 4) + rest);
        law_u32_round_trip(data[i] as u32, rest);
        let d = data[i];
        assert((d as u32) as i32 == d) by (bit_vector);
    }
    assert(got.data@ =~= sent.data@);
}

/// A skill packet is laid out as opcode, skill, caster, target and the seven words, each of
/// four bytes but the first of one.
pub proof fn law_skill_packets_are_laid_out(
    opcode: u8,
    skill_id: u32,
    caster_id: i32,
    target_id: i32,
    data: Seq<i32>,
    i: int,
)
    requires
        data.len() == 7,
        0 <= i < 7,
    ensures
        ({
            let p = skill_payload(opcode, skill_id, caster_id, target_id, data);
            &&& p.len() == 41
            &&& p[0] == opcode
            &&& u32_at_front(p.skip(1)) == skill_id
            &&& u32_at_front(p.skip(5)) as i32 == caster_id
            &&& u32_at_front(p.skip(9)) as i32 == target_id
            &&& u32_at_front(p.skip(13 + 4 * i)) as i32 == data[i]
        }),
{
    let p = skill_payload(opcode, skill_id, caster_id, target_id, data);
    law_skill_packet_size(opcode, skill_id, caster_id, target_id, data);
    lemma_i32_run_len(data);
    lemma_i32_run_word(data, i);
    let tail = i32_run_bytes(data);
    let target = u32_bytes(target_id as u32);
    let caster = u32_bytes(caster_id as u32);
    assert(p.skip(1) =~= u32_bytes(skill_id) + (caster + target + tail));
    assert(p.skip(5) =~= caster + (target + tail));
    assert(p.skip(9) =~= target + tail);
    law_u32_round_trip(skill_id, caster + target + tail);
    law_u32_round_trip(caster_id as u32, target + tail);
    law_u32_round_trip(target_id as u32, tail);
    assert((caster_id as u32) as i32 == caster_id) by (bit_vector);
    assert((target_id as u32) as i32 == target_id) by (bit_vector);
    let at = 13 + 4 * i;
    let rest = p.skip(at + 4);
    assert(p.skip(at) =~= tail.subrange(4 * i, 4 * i + 4) + rest);
    law_u32_round_trip(data[i] as u32, rest);
    let d = data[i];
    assert((d as u32) as i32 == d) by (bit_vector);
}

/// A request is read from the same places, and every part that the payload does not hold as a
/// whole is 0.
pub proof fn law_requests_are_read_in_place(payload: Seq<u8>, m: MagicInstance, i: int)
    requires
        parsed(payload, m),
        0 <= i < 7,
    ensures
        payload.len() >= 1 ==> m.opcode == payload[0],
        payload.len() == 0 ==> m.opcode == 0,
        payload.len() >= 5 ==> m.skill_id == u32_at_front(payload.skip(1)),
        payload.len() < 5 ==> m.skill_id == 0,
        payload.len() >= 9 ==> m.caster_id == u32_at_front(payload.skip(5)) as i32,
        payload.len() < 9 ==> m.caster_id == 0,
        payload.len() >= 13 ==> m.target_id == u32_at_front(payload.skip(9)) as i32,
        payload.len() < 13 ==> m.target_id == 0,
        payload.len() >= 17 + 4 * i ==> m.data@[i] == u32_at_front(payload.skip(13 + 4 * i)) as i32,
        payload.len() < 17 + 4 * i ==> m.data@[i] == 0,
{
    let zero: u32 = 0;
    assert(zero as i32 == 0i32) by (bit_vector)
        requires
            zero == 0u32,
    ;
}

/// A failure while casting, which is phase 1, is told as -100, one in any other phase as -103.
/// Ids from 0 to 9999 are players; all others, the id of no target among them, count as NPCs.
pub proof fn law_failures_and_ids(opcode: u8, id: i32)
    ensures
        opcode == 1 ==> fail_reason(opcode) == -100,
        opcode != 1 ==> fail_reason(opcode) == -103,
        player_id(id) <==> 0 <= id <= 9999,
        npc_id(id) <==> !player_id(id),
{
}

} // verus!
