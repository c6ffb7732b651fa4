//! Packets of skills and of the changes that they make.

use ko_game::constants::{
    MAGIC_CASTING, MAGIC_EFFECTING, MAGIC_FAIL, MAGIC_FLYING, STATE_CHANGE_INVISIBILITY,
    STATE_CHANGE_TRANSFORMATION, WIZ_DEAD, WIZ_MAGIC_PROCESS, WIZ_REGENE, WIZ_STATE_CHANGE,
    WIZ_STEALTH, WIZ_USERLOOK_CHANGE, WIZ_WARP,
};
use ko_game::control::{build_invisible, build_sleep};
use ko_game::instance::{
    MagicInstance, build_skill_failed_packet, caster_is_session, is_npc_id, is_player_id,
    parse_request,
};
use ko_game::notices::{
    build_cancel_transformation, build_dead, build_duration_expired, build_extend_reply,
    build_hidden_slot, build_regene, build_state_change, build_stealth_reset, build_transform_list,
    build_warp,
};
use ko_game::packet::{Packet, PacketReader};
#[test]
fn test_build_skill_packet() {
    let instance = MagicInstance {
        opcode: MAGIC_EFFECTING,
        skill_id: 108010,
        caster_id: 1,
        target_id: 2,
        data: [100, 0, 200, 0, 0, 0, 0],
    };

    let pkt = instance.build_packet(MAGIC_EFFECTING);
    assert_eq!(pkt.opcode, WIZ_MAGIC_PROCESS);

    let mut r = PacketReader::new(&pkt.data);
    assert_eq!(r.read_u8(), Some(MAGIC_EFFECTING));
    assert_eq!(r.read_u32(), Some(108010));
    assert_eq!(r.read_u32(), Some(1));
    assert_eq!(r.read_u32(), Some(2));
    assert_eq!(r.read_u32(), Some(100));
    assert_eq!(r.read_u32(), Some(0));
    assert_eq!(r.read_u32(), Some(200));
    for _ in 3..7 {
        assert_eq!(r.read_u32(), Some(0));
    }
    assert_eq!(r.remaining(), 0);
}

#[test]
fn test_build_fail_packet() {
    let instance = MagicInstance {
        opcode: MAGIC_EFFECTING,
        skill_id: 999,
        caster_id: 5,
        target_id: 10,
        data: [0; 7],
    };

    let pkt = instance.build_fail_packet();
    let mut r = PacketReader::new(&pkt.data);
    assert_eq!(r.read_u8(), Some(MAGIC_FAIL));
    assert_eq!(r.read_u32(), Some(999));
}

/// A target of -1 is sign-extended to all ones.
#[test]
fn test_build_packet_negative_target_sign_extension() {
    let instance = MagicInstance {
        opcode: MAGIC_EFFECTING,
        skill_id: 108010,
        caster_id: 42,
        target_id: -1,
        data: [-1, 0, 0, 0, 0, 0, 0],
    };

    let pkt = instance.build_packet(MAGIC_EFFECTING);
    let mut r = PacketReader::new(&pkt.data);

    assert_eq!(r.read_u8(), Some(MAGIC_EFFECTING));
    assert_eq!(r.read_u32(), Some(108010));
    assert_eq!(r.read_u32(), Some(42));
    assert_eq!(r.read_u32(), Some(0xFFFFFFFF));
    assert_eq!(r.read_u32(), Some(0xFFFFFFFF));
    for _ in 1..7 {
        assert_eq!(r.read_u32(), Some(0));
    }
    assert_eq!(r.remaining(), 0);
}

#[test]
fn test_build_packet_negative_caster_sign_extension() {
    let instance = MagicInstance {
        opcode: MAGIC_FAIL,
        skill_id: 500,
        caster_id: -1,
        target_id: 10,
        data: [0; 7],
    };

    let pkt = instance.build_packet(MAGIC_FAIL);
    let mut r = PacketReader::new(&pkt.data);

    assert_eq!(r.read_u8(), Some(MAGIC_FAIL));
    assert_eq!(r.read_u32(), Some(500));
    assert_eq!(r.read_u32(), Some(0xFFFFFFFF));
    assert_eq!(r.read_u32(), Some(10));
}

#[test]
fn test_client_packet_parse() {
    let mut pkt = Packet::new(WIZ_MAGIC_PROCESS);
    pkt.write_u8(MAGIC_EFFECTING);
    pkt.write_u32(108010);
    pkt.write_u32(1);
    pkt.write_u32(2);
    for i in 0..7u32 {
        pkt.write_u32(i * 10);
    }

    let mut r = PacketReader::new(&pkt.data);
    let opcode = r.read_u8().unwrap();
    let skill_id = r.read_u32().unwrap();
    let caster = r.read_u32().unwrap() as i32;
    let target = r.read_u32().unwrap() as i32;
    let mut data = [0i32; 7];
    for d in &mut data {
        *d = r.read_u32().unwrap() as i32;
    }

    assert_eq!(opcode, MAGIC_EFFECTING);
    assert_eq!(skill_id, 108010);
    assert_eq!(caster as i16, 1);
    assert_eq!(target as i16, 2);
    assert_eq!(data[0], 0);
    assert_eq!(data[1], 10);
    assert_eq!(data[2], 20);
    assert_eq!(r.remaining(), 0);

    let request = parse_request(&pkt.data);
    assert_eq!(request.opcode, MAGIC_EFFECTING);
    assert_eq!(request.skill_id, 108010);
    assert_eq!(request.caster_id, 1);
    assert_eq!(request.target_id, 2);
    assert_eq!(request.data, [0, 10, 20, 30, 40, 50, 60]);
}

#[test]
fn test_skill_packet_size() {
    let instance = MagicInstance {
        opcode: MAGIC_CASTING,
        skill_id: 1,
        caster_id: 1,
        target_id: -1,
        data: [0; 7],
    };

    let pkt = instance.build_packet(MAGIC_CASTING);
    assert_eq!(pkt.data.len(), 41);
}

#[test]
fn test_type6_transform_packet() {
    let mut instance = MagicInstance {
        opcode: MAGIC_EFFECTING,
        skill_id: 450001,
        caster_id: 1,
        target_id: 1,
        data: [0; 7],
    };

    instance.data[1] = 1;
    instance.data[3] = 120;

    let pkt = instance.build_packet(MAGIC_EFFECTING);
    let mut r = PacketReader::new(&pkt.data);
    assert_eq!(r.read_u8(), Some(MAGIC_EFFECTING));
    assert_eq!(r.read_u32(), Some(450001));
    assert_eq!(r.read_u32(), Some(1));
    assert_eq!(r.read_u32(), Some(1));
    assert_eq!(r.read_u32(), Some(0));
    assert_eq!(r.read_u32(), Some(1));
    assert_eq!(r.read_u32(), Some(0));
    assert_eq!(r.read_u32(), Some(120));
}

#[test]
fn test_type7_summon_packet() {
    let mut instance = MagicInstance {
        opcode: MAGIC_EFFECTING,
        skill_id: 500010,
        caster_id: 1,
        target_id: -1,
        data: [0; 7],
    };

    instance.data[1] = 1;

    let pkt = instance.build_packet(MAGIC_EFFECTING);
    let mut r = PacketReader::new(&pkt.data);
    assert_eq!(r.read_u8(), Some(MAGIC_EFFECTING));
    assert_eq!(r.read_u32(), Some(500010));
    r.read_u32();
    r.read_u32();
    assert_eq!(r.read_u32(), Some(0));
    assert_eq!(r.read_u32(), Some(1));
}

#[test]
fn test_transform_list_packet_format() {
    let pkt = build_transform_list(472001);
    assert_eq!(pkt.opcode, WIZ_MAGIC_PROCESS);

    let mut reader = PacketReader::new(&pkt.data);
    assert_eq!(reader.read_u8(), Some(9));
    assert_eq!(reader.read_u32(), Some(472001));
    assert_eq!(reader.remaining(), 0);
}

#[test]
fn test_type6_state_change_broadcast_format() {
    let skill_id: u32 = 450001;
    let pkt = build_state_change(1, 3, skill_id);

    assert_eq!(pkt.opcode, WIZ_STATE_CHANGE);
    assert_eq!(pkt.data.len(), 9);

    let mut r = PacketReader::new(&pkt.data);
    assert_eq!(r.read_u32(), Some(1));
    assert_eq!(r.read_u8(), Some(3));
    assert_eq!(r.read_u32(), Some(450001));
    assert_eq!(r.remaining(), 0);
}

#[test]
fn test_gm_transform_visibility_packet_format() {
    let pkt = build_state_change(1, 5, 1);

    let mut r = PacketReader::new(&pkt.data);
    assert_eq!(r.read_u32(), Some(1));
    assert_eq!(r.read_u8(), Some(5));
    assert_eq!(r.read_u32(), Some(1));
    assert_eq!(r.remaining(), 0);
}

#[test]
fn test_v2615_transformation_state_packet_format() {
    let pkt = build_state_change(42, STATE_CHANGE_TRANSFORMATION, 500564);

    let mut r = PacketReader::new(&pkt.data);
    assert_eq!(r.read_u32(), Some(42));
    assert_eq!(r.read_u8(), Some(0x13));
    assert_eq!(r.read_u32(), Some(500564));
    assert_eq!(r.remaining(), 0);
}

#[test]
fn test_v2615_transformation_reset_packet_format() {
    let pkt = build_state_change(42, STATE_CHANGE_TRANSFORMATION, 0);

    let mut r = PacketReader::new(&pkt.data);
    assert_eq!(r.read_u32(), Some(42));
    assert_eq!(r.read_u8(), Some(0x13));
    assert_eq!(r.read_u32(), Some(0));
    assert_eq!(r.remaining(), 0);
}

#[test]
fn test_magic_cancel_transformation_packet_format() {
    let pkt = build_cancel_transformation();

    assert_eq!(pkt.opcode, WIZ_MAGIC_PROCESS);
    let mut r = PacketReader::new(&pkt.data);
    assert_eq!(r.read_u8(), Some(7));
    assert_eq!(r.remaining(), 0);
}

#[test]
fn test_zero_skill_id_produces_valid_fail_packet() {
    let instance = MagicInstance {
        opcode: MAGIC_EFFECTING,
        skill_id: 0,
        caster_id: 1,
        target_id: 2,
        data: [0; 7],
    };

    let pkt = instance.build_fail_packet();
    let mut r = PacketReader::new(&pkt.data);
    assert_eq!(r.read_u8(), Some(MAGIC_FAIL));
    assert_eq!(r.read_u32(), Some(0));
}

#[test]
fn test_zero_skill_id_build_packet_no_panic() {
    let instance = MagicInstance {
        opcode: MAGIC_CASTING,
        skill_id: 0,
        caster_id: 1,
        target_id: -1,
        data: [0; 7],
    };

    let pkt = instance.build_packet(MAGIC_CASTING);
    assert_eq!(pkt.data.len(), 41);

    let mut r = PacketReader::new(&pkt.data);
    assert_eq!(r.read_u8(), Some(MAGIC_CASTING));
    assert_eq!(r.read_u32(), Some(0));
    assert_eq!(r.read_u32(), Some(1));
    assert_eq!(r.read_u32(), Some(0xFFFFFFFF));
}

#[test]
fn test_build_skill_failed_packet() {
    let data = [10, 0, 20, 0, 0, 0, 0i32];
    let pkt = build_skill_failed_packet(109035, 1, -1, &data);
    assert_eq!(pkt.opcode, WIZ_MAGIC_PROCESS);
    let mut r = PacketReader::new(&pkt.data);
    assert_eq!(r.read_u8(), Some(MAGIC_FAIL));
    assert_eq!(r.read_u32(), Some(109035));
    assert_eq!(r.read_u32(), Some(1));
    assert_eq!(r.read_u32(), Some((-1i16 as i32) as u32));
}

#[test]
fn test_type5_resurrection_sends_regene_packet() {
    let (x, z): (f32, f32) = (500.0, 300.0);
    let pkt = build_regene((x * 10.0) as u16, (z * 10.0) as u16);
    assert_eq!(pkt.opcode, WIZ_REGENE, "Packet must be WIZ_REGENE");
    let mut r = PacketReader::new(&pkt.data);
    assert_eq!(r.read_u16(), Some(5000));
    assert_eq!(r.read_u16(), Some(3000));
    assert_eq!(r.read_u16(), Some(0));
    assert_eq!(r.remaining(), 0);
}

#[test]
fn test_target_id_i16_cast_negative_one() {
    let raw: u32 = 0xFFFFFFFF;
    let as_i32 = raw as i32;
    assert_eq!(as_i32, -1);
    let as_i16_i32 = raw as i16 as i32;
    assert_eq!(as_i16_i32, -1);

    let mut pkt = Packet::new(WIZ_MAGIC_PROCESS);
    pkt.write_u8(MAGIC_CASTING);
    pkt.write_u32(108010);
    pkt.write_u32(1);
    pkt.write_u32(raw);
    assert_eq!(parse_request(&pkt.data).target_id, -1);
}

#[test]
fn test_target_id_i16_cast_0x_ffff() {
    let raw: u32 = 0x0000FFFF;
    let without_cast = raw as i32;
    assert_eq!(without_cast, 65535);

    let with_cast = raw as i16 as i32;
    assert_eq!(with_cast, -1);
}

#[test]
fn test_target_id_i16_cast_positive() {
    let raw: u32 = 5;
    let with_cast = raw as i16 as i32;
    assert_eq!(with_cast, 5);

    let raw2: u32 = 15000;
    let with_cast2 = raw2 as i16 as i32;
    assert_eq!(with_cast2, 15000);
}

#[test]
fn short_requests_are_filled_with_zeros() {
    let empty = parse_request(&[]);
    assert_eq!(
        (empty.opcode, empty.skill_id, empty.caster_id, empty.target_id, empty.data),
        (0, 0, 0, 0, [0; 7])
    );

    let mut pkt = Packet::new(WIZ_MAGIC_PROCESS);
    pkt.write_u8(MAGIC_FLYING);
    pkt.write_u32(7);
    pkt.write_u16(1);
    let cut = parse_request(&pkt.data);
    assert_eq!((cut.opcode, cut.skill_id, cut.caster_id), (MAGIC_FLYING, 7, 0));
}

#[test]
fn failures_name_their_reason() {
    let mut casting = MagicInstance {
        opcode: MAGIC_CASTING,
        skill_id: 108010,
        caster_id: 3,
        target_id: 4,
        data: [9; 7],
    };
    let pkt = casting.send_skill_failed();
    assert_eq!(casting.data, [9, 9, 9, -100, 9, 9, 9]);
    let mut r = PacketReader::new(&pkt.data);
    assert_eq!(r.read_u8(), Some(MAGIC_FAIL));
    for word in [108010, 3, 4, 9, 9, 9, -100, 9, 9, 9] {
        assert_eq!(r.read_i32(), Some(word));
    }
    assert_eq!(r.remaining(), 0);

    let mut effecting = MagicInstance { opcode: MAGIC_EFFECTING, ..casting };
    effecting.send_skill_failed();
    assert_eq!(effecting.data[3], -103);
}

#[test]
fn words_come_back_as_they_were_written() {
    let mut pkt = Packet::new(1);
    pkt.write_u16(0xABCD);
    pkt.write_u32(0xDEADBEEF);
    pkt.write_i16(-2);
    pkt.write_i32(i32::MIN);
    assert_eq!(pkt.data, vec![0xCD, 0xAB, 0xEF, 0xBE, 0xAD, 0xDE, 0xFE, 0xFF, 0, 0, 0, 0x80]);
    let mut r = PacketReader::new(&pkt.data);
    assert_eq!(r.read_u16(), Some(0xABCD));
    assert_eq!(r.read_u32(), Some(0xDEADBEEF));
    assert_eq!(r.read_i16(), Some(-2));
    assert_eq!(r.read_i32(), Some(i32::MIN));
    assert_eq!(r.read_u8(), None);
    assert_eq!(r.read_u16(), None);
    assert_eq!(r.read_u32(), None);
    assert_eq!(r.read_i16(), None);
    assert_eq!(r.read_i32(), None);
}

#[test]
fn notices_have_their_forms() {
    assert_eq!(build_extend_reply(0x01020304).data, vec![8, 4, 3, 2, 1]);
    assert_eq!(build_duration_expired(200).data, vec![5, 200]);
    let warp = build_warp(10, 20);
    assert_eq!((warp.opcode, warp.data), (WIZ_WARP, vec![10, 0, 20, 0, 0xFF, 0xFF]));
    let stealth = build_stealth_reset();
    assert_eq!((stealth.opcode, stealth.data), (WIZ_STEALTH, vec![0, 0, 0]));
    let slot = build_hidden_slot(5, 6);
    assert_eq!(slot.opcode, WIZ_USERLOOK_CHANGE);
    assert_eq!(slot.data, vec![5, 0, 0, 0, 6, 0, 0, 0, 0, 0, 0, 0]);
    let dead = build_dead(258);
    assert_eq!((dead.opcode, dead.data), (WIZ_DEAD, vec![2, 1, 0, 0]));
    let sleep = build_sleep(10500);
    assert_eq!(sleep.opcode, WIZ_STATE_CHANGE);
    let hidden = build_invisible(7, 1);
    assert_eq!(hidden.data, vec![7, 0, 0, 0, STATE_CHANGE_INVISIBILITY, 1, 0, 0, 0]);
}

#[test]
fn ids_tell_players_from_npcs() {
    assert!(is_player_id(1) && is_player_id(9999) && !is_player_id(10000) && !is_player_id(-1));
    assert!(is_npc_id(10000) && !is_npc_id(9999));
    assert!(caster_is_session(42, 42) && !caster_is_session(41, 42));
}
