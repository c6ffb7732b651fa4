//! Short packets that tell clients about a change.

use crate::packet::{u16_bytes, u32_bytes, Packet};
use crate::constants::{
    MAGIC_CANCEL_TRANSFORMATION, MAGIC_DURATION_EXPIRED, MAGIC_TRANSFORM_LIST, MAGIC_TYPE4_EXTEND,
    WIZ_DEAD, WIZ_MAGIC_PROCESS, WIZ_REGENE, WIZ_STATE_CHANGE, WIZ_STEALTH, WIZ_USERLOOK_CHANGE,
    WIZ_WARP, WIZ_ZONEABILITY,
};
use vstd::prelude::*;

verus! {

/// Payload of a state change: who, what kind, which value.
pub open spec fn state_change_payload(id: u32, kind: u8, value: u32) -> Seq<u8> {
    u32_bytes(id).push(kind) + u32_bytes(value)
}

/// Tell clients that an entity's state has changed.
pub fn build_state_change(id: u32, kind: u8, value: u32) -> (p: Packet)
    ensures
        p.opcode == WIZ_STATE_CHANGE,
        p.data@ == state_change_payload(id, kind, value),
        p.opcode == 0x29,
{
    let mut pkt = Packet::new(WIZ_STATE_CHANGE);
    pkt.write_u32(id);
    pkt.write_u8(kind);
    pkt.write_u32(value);
    assert(pkt.data@ =~= state_change_payload(id, kind, value));
    pkt
}

/// Payload of the list of shapes.
pub open spec fn transform_list_payload(skill_id: u32) -> Seq<u8> {
    seq![MAGIC_TRANSFORM_LIST] + u32_bytes(skill_id)
}

/// Open the list of shapes that a transformation item offers.
pub fn build_transform_list(skill_id: u32) -> (p: Packet)
    ensures
        p.opcode == WIZ_MAGIC_PROCESS,
        p.data@ == transform_list_payload(skill_id),
        p.opcode == 0x31,
{
    let mut pkt = Packet::new(WIZ_MAGIC_PROCESS);
    pkt.write_u8(MAGIC_TRANSFORM_LIST);
    pkt.write_u32(skill_id);
    assert(pkt.data@ =~= seq![MAGIC_TRANSFORM_LIST] + u32_bytes(skill_id));
    pkt
}

/// Payload of a buff that was prolonged.
pub open spec fn extend_payload(skill_id: u32) -> Seq<u8> {
    seq![MAGIC_TYPE4_EXTEND] + u32_bytes(skill_id)
}

/// Tell the caster that a buff was prolonged.
pub fn build_extend_reply(skill_id: u32) -> (p: Packet)
    ensures
        p.opcode == WIZ_MAGIC_PROCESS,
        p.data@ == extend_payload(skill_id),
        p.opcode == 0x31,
{
    let mut pkt = Packet::new(WIZ_MAGIC_PROCESS);
    pkt.write_u8(MAGIC_TYPE4_EXTEND);
    pkt.write_u32(skill_id);
    assert(pkt.data@ =~= seq![MAGIC_TYPE4_EXTEND] + u32_bytes(skill_id));
    pkt
}

/// The buff number by which a client clears its heal over time.
pub const EXPIRED_HOT: u8 = 100;

/// The buff number by which a client clears its damage over time.
pub const EXPIRED_DOT: u8 = 200;

/// Tell clients that a buff has ended.
pub fn build_duration_expired(buff_type: u8) -> (p: Packet)
    ensures
        p.opcode == WIZ_MAGIC_PROCESS,
        p.data@ == seq![MAGIC_DURATION_EXPIRED, buff_type],
        p.opcode == 0x31,
        p.data@ == seq![5u8, buff_type],
{
    let mut pkt = Packet::new(WIZ_MAGIC_PROCESS);
    pkt.write_u8(MAGIC_DURATION_EXPIRED);
    pkt.write_u8(buff_type);
    assert(pkt.data@ =~= seq![MAGIC_DURATION_EXPIRED, buff_type]);
    pkt
}

/// Tell the caster that the transformation is over.
pub fn build_cancel_transformation() -> (p: Packet)
    ensures
        p.opcode == WIZ_MAGIC_PROCESS,
        p.data@ == seq![MAGIC_CANCEL_TRANSFORMATION],
        p.opcode == 0x31,
        p.data@ == seq![7u8],
{
    let mut pkt = Packet::new(WIZ_MAGIC_PROCESS);
    pkt.write_u8(MAGIC_CANCEL_TRANSFORMATION);
    assert(pkt.data@ =~= seq![MAGIC_CANCEL_TRANSFORMATION]);
    pkt
}

/// Payload of where a player stands after a resurrection.
pub open spec fn regene_payload(x10: u16, z10: u16) -> Seq<u8> {
    u16_bytes(x10) + u16_bytes(z10) + u16_bytes(0)
}

/// Tell a player where they stand after a resurrection, in tenths of a world unit.
pub fn build_regene(x10: u16, z10: u16) -> (p: Packet)
    ensures
        p.opcode == WIZ_REGENE,
        p.data@ == regene_payload(x10, z10),
        p.opcode == 0x12,
{
    let mut pkt = Packet::new(WIZ_REGENE);
    pkt.write_u16(x10);
    pkt.write_u16(z10);
    pkt.write_u16(0);
    assert(pkt.data@ =~= u16_bytes(x10) + u16_bytes(z10) + u16_bytes(0));
    pkt
}

/// Payload of a move within a zone.
pub open spec fn warp_payload(x10: u16, z10: u16) -> Seq<u8> {
    u16_bytes(x10) + u16_bytes(z10) + u16_bytes(-1i16 as u16)
}

/// Move a player within their zone, in tenths of a world unit.
pub fn build_warp(x10: u16, z10: u16) -> (p: Packet)
    ensures
        p.opcode == WIZ_WARP,
        p.data@ == warp_payload(x10, z10),
        p.opcode == 0x1E,
{
    let mut pkt = Packet::new(WIZ_WARP);
    pkt.write_u16(x10);
    pkt.write_u16(z10);
    pkt.write_i16(-1);
    assert(pkt.data@ =~= u16_bytes(x10) + u16_bytes(z10) + u16_bytes(-1i16 as u16));
    pkt
}

/// Reset a player's stealth.
pub fn build_stealth_reset() -> (p: Packet)
    ensures
        p.opcode == WIZ_STEALTH,
        p.data@ == seq![0u8] + u16_bytes(0),
        p.opcode == 0x60,
        p.data@.len() == 3,
        p.data@[0] == 0,
{
    let mut pkt = Packet::new(WIZ_STEALTH);
    pkt.write_u8(0);
    pkt.write_u16(0);
    assert(pkt.data@ =~= seq![0u8] + u16_bytes(0));
    pkt
}

/// The kind of zone packet that changes an ailment on the status bar.
pub const ZONEABILITY_STATUS: u8 = 2;

/// Show or cure an ailment on a player's status bar.
pub fn build_user_status(status: u8, behaviour: u8) -> (p: Packet)
    ensures
        p.opcode == WIZ_ZONEABILITY,
        p.data@ == seq![ZONEABILITY_STATUS, status, behaviour],
        p.opcode == 0x5E,
        p.data@ == seq![2u8, status, behaviour],
{
    let mut pkt = Packet::new(WIZ_ZONEABILITY);
    pkt.write_u8(ZONEABILITY_STATUS);
    pkt.write_u8(status);
    pkt.write_u8(behaviour);
    assert(pkt.data@ =~= seq![ZONEABILITY_STATUS, status, behaviour]);
    pkt
}

/// Payload of an empty equipment slot.
pub open spec fn hidden_slot_payload(id: u32, slot: u8) -> Seq<u8> {
    (u32_bytes(id).push(slot) + u32_bytes(0) + u16_bytes(0)).push(0)
}

/// Show a player with an empty equipment slot.
pub fn build_hidden_slot(id: u32, slot: u8) -> (p: Packet)
    ensures
        p.opcode == WIZ_USERLOOK_CHANGE,
        p.data@ == hidden_slot_payload(id, slot),
        p.opcode == 0x2D,
{
    let mut pkt = Packet::new(WIZ_USERLOOK_CHANGE);
    pkt.write_u32(id);
    pkt.write_u8(slot);
    pkt.write_u32(0);
    pkt.write_u16(0);
    pkt.write_u8(0);
    assert(pkt.data@ =~= (u32_bytes(id).push(slot) + u32_bytes(0) + u16_bytes(0)).push(0));
    pkt
}

/// Announce a death.
pub fn build_dead(id: u32) -> (p: Packet)
    ensures
        p.opcode == WIZ_DEAD,
        p.data@ == u32_bytes(id),
        p.opcode == 0x11,
{
    let mut pkt = Packet::new(WIZ_DEAD);
    pkt.write_u32(id);
    assert(pkt.data@ =~= u32_bytes(id));
    pkt
}

/// How notices are laid out. A state change is the entity in four bytes, the kind, and the value
/// in four. The list of shapes is 9 and a prolonged buff 8, each with the skill in four bytes. A
/// resurrection and a move within a zone are x and z in two bytes each and two more, zeros for
/// the one and 255 for the other. An empty slot is the player in four bytes, the slot, and seven
/// zeros.
pub proof fn law_notices_are_laid_out(id: u32, kind: u8, value: u32, x10: u16, z10: u16)
    ensures
        ({
            let s = state_change_payload(id, kind, value);
            &&& s.len() == 9
            &&& s.subrange(0, 4) == u32_bytes(id)
            &&& s[4] == kind
            &&& s.subrange(5, 9) == u32_bytes(value)
        }),
        ({
            let t = transform_list_payload(id);
            let e = extend_payload(id);
            &&& t.len() == 5 && t[0] == 9 && t.subrange(1, 5) == u32_bytes(id)
            &&& e.len() == 5 && e[0] == 8 && e.subrange(1, 5) == u32_bytes(id)
        }),
        ({
            let r = regene_payload(x10, z10);
            let w = warp_payload(x10, z10);
            &&& r.len() == 6 && w.len() == 6
            &&& r.subrange(0, 2) == u16_bytes(x10) && w.subrange(0, 2) == u16_bytes(x10)
            &&& r.subrange(2, 4) == u16_bytes(z10) && w.subrange(2, 4) == u16_bytes(z10)
            &&& r[4] == 0 && r[5] == 0
            &&& w[4] == 255 && w[5] == 255
        }),
        ({
            let h = hidden_slot_payload(id, kind);
            &&& h.len() == 12
            &&& h.subrange(0, 4) == u32_bytes(id)
            &&& h[4] == kind
            &&& h.subrange(5, 12) == seq![0u8, 0u8, 0u8, 0u8, 0u8, 0u8, 0u8]
        }),
{
    let s = state_change_payload(id, kind, value);
    assert(s.subrange(0, 4) =~= u32_bytes(id));
    assert(s.subrange(5, 9) =~= u32_bytes(value));
    assert(transform_list_payload(id).subrange(1, 5) =~= u32_bytes(id));
    assert(extend_payload(id).subrange(1, 5) =~= u32_bytes(id));
    let r = regene_payload(x10, z10);
    let w = warp_payload(x10, z10);
    assert(r.subrange(0, 2) =~= u16_bytes(x10));
    assert(w.subrange(0, 2) =~= u16_bytes(x10));
    assert(r.subrange(2, 4) =~= u16_bytes(z10));
    assert(w.subrange(2, 4) =~= u16_bytes(z10));
    assert(-1i16 as u16 == 65535) by (bit_vector);
    crate::packet::law_low_bytes_go_first(0, 0);
    crate::packet::law_low_bytes_go_first(65535, 0);
    let h = hidden_slot_payload(id, kind);
    assert(h.subrange(0, 4) =~= u32_bytes(id));
    assert(h.subrange(5, 12) =~= seq![0u8, 0u8, 0u8, 0u8, 0u8, 0u8, 0u8]);
}

} // verus!
