//! Rebirth.

use ko_game::constants::WIZ_REBIRTH;
use ko_game::packet::PacketReader;
use ko_game::rebirth::{
    REBIRTH_EXP_PERCENT, REBIRTH_GOLD_COST, REBIRTH_LOYALTY_COST, RebirthState, SUB_ACTIVATE,
    SUB_COMPLETE, SUB_PROGRESS, SUB_RESULT, Stats, build_activate, build_answers, build_complete,
    build_progress, build_result, handle_rebirth_request, is_rebirth_request,
};
#[test]
fn test_build_activate_opcode() {
    let pkt = build_activate();
    assert_eq!(pkt.opcode, WIZ_REBIRTH);
}

#[test]
fn test_build_activate_format() {
    let pkt = build_activate();
    let mut r = PacketReader::new(&pkt.data);
    assert_eq!(r.read_u8(), Some(SUB_ACTIVATE));
    assert_eq!(r.remaining(), 0);
}

#[test]
fn test_build_activate_data_length() {
    assert_eq!(build_activate().data.len(), 1);
}

#[test]
fn test_build_result_opcode() {
    let pkt = build_result(0);
    assert_eq!(pkt.opcode, WIZ_REBIRTH);
}

#[test]
fn test_build_result_format() {
    let pkt = build_result(3);
    let mut r = PacketReader::new(&pkt.data);
    assert_eq!(r.read_u8(), Some(SUB_RESULT));
    assert_eq!(r.read_u8(), Some(3));
    assert_eq!(r.remaining(), 0);
}

#[test]
fn test_build_result_data_length() {
    assert_eq!(build_result(0).data.len(), 2);
}

#[test]
fn test_build_result_zero() {
    let pkt = build_result(0);
    let mut r = PacketReader::new(&pkt.data);
    assert_eq!(r.read_u8(), Some(SUB_RESULT));
    assert_eq!(r.read_u8(), Some(0));
}

#[test]
fn test_build_result_max() {
    let pkt = build_result(u8::MAX);
    let mut r = PacketReader::new(&pkt.data);
    assert_eq!(r.read_u8(), Some(SUB_RESULT));
    assert_eq!(r.read_u8(), Some(u8::MAX));
}

#[test]
fn test_build_progress_opcode() {
    let pkt = build_progress(0, 0, 0);
    assert_eq!(pkt.opcode, WIZ_REBIRTH);
}

#[test]
fn test_build_progress_format() {
    let pkt = build_progress(100, 500, 1000);
    let mut r = PacketReader::new(&pkt.data);
    assert_eq!(r.read_u8(), Some(SUB_PROGRESS));
    assert_eq!(r.read_i32(), Some(100));
    assert_eq!(r.read_i32(), Some(500));
    assert_eq!(r.read_i32(), Some(1000));
    assert_eq!(r.remaining(), 0);
}

#[test]
fn test_build_progress_data_length() {
    assert_eq!(build_progress(0, 0, 0).data.len(), 13);
}

#[test]
fn test_build_progress_negative_values() {
    let pkt = build_progress(-1, -100, i32::MIN);
    let mut r = PacketReader::new(&pkt.data);
    assert_eq!(r.read_u8(), Some(SUB_PROGRESS));
    assert_eq!(r.read_i32(), Some(-1));
    assert_eq!(r.read_i32(), Some(-100));
    assert_eq!(r.read_i32(), Some(i32::MIN));
}

#[test]
fn test_build_complete_opcode() {
    let pkt = build_complete(0);
    assert_eq!(pkt.opcode, WIZ_REBIRTH);
}

#[test]
fn test_build_complete_format() {
    let pkt = build_complete(5);
    let mut r = PacketReader::new(&pkt.data);
    assert_eq!(r.read_u8(), Some(SUB_COMPLETE));
    assert_eq!(r.read_i32(), Some(5));
    assert_eq!(r.remaining(), 0);
}

#[test]
fn test_build_complete_data_length() {
    assert_eq!(build_complete(0).data.len(), 5);
}

#[test]
fn test_build_complete_max_level() {
    let pkt = build_complete(i32::MAX);
    let mut r = PacketReader::new(&pkt.data);
    assert_eq!(r.read_u8(), Some(SUB_COMPLETE));
    assert_eq!(r.read_i32(), Some(i32::MAX));
}

#[test]
fn test_sub_opcode_values() {
    assert_eq!(SUB_ACTIVATE, 1);
    assert_eq!(SUB_RESULT, 2);
    assert_eq!(SUB_PROGRESS, 3);
    assert_eq!(SUB_COMPLETE, 4);
}

#[test]
fn test_all_builders_same_opcode() {
    assert_eq!(build_activate().opcode, WIZ_REBIRTH);
    assert_eq!(build_result(0).opcode, WIZ_REBIRTH);
    assert_eq!(build_progress(0, 0, 0).opcode, WIZ_REBIRTH);
    assert_eq!(build_complete(0).opcode, WIZ_REBIRTH);
}

#[test]
fn test_rebirth_constants() {
    assert_eq!(REBIRTH_GOLD_COST, 100_000_000);
    assert_eq!(REBIRTH_LOYALTY_COST, 10_000);
    assert_eq!(REBIRTH_EXP_PERCENT, 100);
}

fn ready() -> RebirthState {
    RebirthState {
        level: 83,
        exp: 5000,
        gold: 150_000_000,
        loyalty: 12_000,
        rebirth_level: 2,
        stats: Stats { str: 90, sta: 60, dex: 50, intel: 40, cha: 30 },
        rebirth_stats: Stats { str: 1, sta: 2, dex: 3, intel: 4, cha: 5 },
    }
}

#[test]
fn rebirth_takes_its_price() {
    let mut s = ready();
    assert_eq!(handle_rebirth_request(&mut s, 5000), Some(3));
    assert_eq!(
        s,
        RebirthState {
            level: 1,
            exp: 0,
            gold: 50_000_000,
            loyalty: 2_000,
            rebirth_level: 3,
            stats: ready().stats,
            rebirth_stats: ready().stats,
        }
    );
    assert_eq!(handle_rebirth_request(&mut s, 5000), None);
}

#[test]
fn rebirth_is_refused_without_its_price() {
    for s in [
        RebirthState { exp: 4999, ..ready() },
        RebirthState { gold: 99_999_999, ..ready() },
        RebirthState { loyalty: 9_999, ..ready() },
    ] {
        let mut after = s;
        assert_eq!(handle_rebirth_request(&mut after, 5000), None);
        assert_eq!(after, s);
    }
    let mut more = RebirthState { exp: 5001, ..ready() };
    assert_eq!(handle_rebirth_request(&mut more, 5000), Some(3));
    assert_eq!((more.level, more.exp), (1, 0));
    let mut unknown = ready();
    assert_eq!(handle_rebirth_request(&mut unknown, 0), None);
    let mut highest = RebirthState { rebirth_level: u8::MAX, ..ready() };
    assert_eq!(handle_rebirth_request(&mut highest, 5000), Some(u8::MAX));
}

#[test]
fn rebirth_is_answered() {
    let refused = build_answers(None);
    assert!(!refused.is_empty());
    assert!(refused.iter().all(|p| p.opcode == WIZ_REBIRTH));
    let done = build_answers(Some(3));
    assert!(done.iter().any(|p| p.data == build_complete(3).data));
    assert!(is_rebirth_request(&[SUB_ACTIVATE]) != is_rebirth_request(&[9]));
}
