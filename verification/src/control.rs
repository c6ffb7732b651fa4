//! Skills that hurt NPCs and put them to sleep, and skills that hide their caster.

use crate::arith::or_i32;
use crate::buff::ActiveBuff;
use crate::constants::{
    BUFF_TYPE_INVISIBILITY, NPC_BAND, STATE_CHANGE_INVISIBILITY, WIZ_STATE_CHANGE,
    ZONE_DUNGEON_DEFENCE, ZONE_FORGOTTEN_TEMPLE,
};
use crate::instance::{fail_reason, same_cast, MagicInstance};
use crate::notices::{build_state_change, state_change_payload};
use crate::packet::Packet;
use crate::tables::{MagicType7Row, MagicType9Row};
use vstd::prelude::*;

verus! {

/// The change of target that puts an NPC to sleep.
pub const TARGET_CHANGE_SLEEP: i32 = 2;

/// What a summoning or control skill does.
#[derive(Clone, Copy, Debug, PartialEq, Eq, Structural)]
pub enum Type7Plan {
    /// The caster is told that the skill failed.
    Failed,
    /// An NPC is hurt, or put to sleep, or both, or neither; the effect is shown either way.
    Done { hurts: Option<u32>, damage: i16, sleeps: Option<u32> },
}

/// What a summoning or control skill does: it works on NPCs alone.
pub open spec fn type7_plan(row: Option<MagicType7Row>, target_id: i32) -> Type7Plan {
    match row {
        None => Type7Plan::Failed,
        Some(row) => {
            let npc = target_id >= NPC_BAND;
            Type7Plan::Done {
                hurts: if npc && row.damage > 0 {
                    Some(target_id as u32)
                } else {
                    None
                },
                damage: row.damage,
                sleeps: if npc && row.target_change == TARGET_CHANGE_SLEEP {
                    Some(target_id as u32)
                } else {
                    None
                },
            }
        },
    }
}

/// The data words of a cast after a summoning or control skill.
pub open spec fn control_words(opcode: u8, data: Seq<i32>, has_row: bool) -> Seq<i32> {
    if has_row {
        data.update(1, 1)
    } else {
        data.update(3, fail_reason(opcode))
    }
}

/// Find out what a summoning or control skill does, and note in its cast that it worked.
pub fn execute_type7(m: &mut MagicInstance, row: &Option<MagicType7Row>) -> (r: Type7Plan)
    ensures
        r == type7_plan(*row, old(m).target_id),
        same_cast(*final(m), *old(m)),
        final(m).data@ == control_words(old(m).opcode, old(m).data@, row is Some),
{
    let row: MagicType7Row = match row {
        Some(d) => *d,
        None => {
            let _packet = m.send_skill_failed();
            return Type7Plan::Failed;
        },
    };
    m.data[1] = 1;
    let npc: bool = m.target_id >= 0 && (m.target_id as u32) >= NPC_BAND;
    let id: u32 = m.target_id as u32;
    Type7Plan::Done {
        hurts: if npc && row.damage > 0 {
            Some(id)
        } else {
            None
        },
        damage: row.damage,
        sleeps: if npc && row.target_change == TARGET_CHANGE_SLEEP {
            Some(id)
        } else {
            None
        },
    }
}

/// Show an NPC asleep.
pub fn build_sleep(npc_id: u32) -> (p: Packet)
    ensures
        p.opcode == WIZ_STATE_CHANGE,
        p.data@ == state_change_payload(npc_id, 1, 4),
        p.opcode == 0x29,
{
    build_state_change(npc_id, 1, 4)
}

/// The caster of a stealth skill.
#[derive(Clone, Copy, Debug)]
pub struct StealthCaster {
    pub zone_id: u16,
    pub can_stealth: bool,
    /// 0 where the caster is visible.
    pub invisibility_type: u8,
    /// When stealth ends, in seconds.
    pub stealth_end_time: u64,
}

/// The state that a stealth skill brings about, in eight bits.
pub open spec fn stealth_state(row: MagicType9Row) -> u8 {
    or_i32(row.state_change, 0) as u8
}

/// Whether a stealth skill hides its caster. Others are shown and tracked alone.
pub open spec fn hides(row: MagicType9Row) -> bool {
    stealth_state(row) == 1 || stealth_state(row) == 2
}

/// Whether a stealth skill works: those that hide need a zone that lets them, a caster who may
/// hide, and one who is visible.
pub open spec fn stealth_ok(row: Option<MagicType9Row>, c: StealthCaster) -> bool {
    match row {
        None => false,
        Some(row) => hides(row) ==> c.zone_id != ZONE_FORGOTTEN_TEMPLE && c.zone_id
            != ZONE_DUNGEON_DEFENCE && c.can_stealth && c.invisibility_type == 0,
    }
}

/// The buff by which a stealth skill is tracked.
pub open spec fn stealth_buff(
    skill_id: u32,
    caster_sid: u16,
    duration: i32,
    now_ms: u64,
) -> ActiveBuff {
    ActiveBuff {
        skill_id,
        buff_type: BUFF_TYPE_INVISIBILITY,
        caster_sid,
        start_time: now_ms,
        duration_secs: duration as u32,
        attack_speed: 0,
        speed: 0,
        ac: 0,
        ac_pct: 0,
        attack: 0,
        magic_attack: 0,
        max_hp: 0,
        max_hp_pct: 0,
        max_mp: 0,
        max_mp_pct: 0,
        str_mod: 0,
        sta_mod: 0,
        dex_mod: 0,
        intel_mod: 0,
        cha_mod: 0,
        fire_r: 0,
        cold_r: 0,
        lightning_r: 0,
        magic_r: 0,
        disease_r: 0,
        poison_r: 0,
        hit_rate: 0,
        avoid_rate: 0,
        weapon_damage: 0,
        ac_sour: 0,
        duration_extended: false,
        is_buff: true,
    }
}

/// A stealth skill that works.
#[derive(Clone, Copy, Debug, PartialEq, Eq, Structural)]
pub struct Stealth {
    /// The state to show to those near, where the caster hides.
    pub shows: Option<u8>,
    pub buff: ActiveBuff,
}

/// Whether a result, the data words and the caster are those after a stealth skill.
pub open spec fn is_stealth(
    r: Option<Stealth>,
    skill_id: u32,
    opcode: u8,
    words: Seq<i32>,
    data: Seq<i32>,
    after: StealthCaster,
    before: StealthCaster,
    row: Option<MagicType9Row>,
    caster_sid: u16,
    now_ms: u64,
    now_secs: u64,
) -> bool {
    &&& (r is Some) == stealth_ok(row, before)
    &&& match r {
        None => words == data.update(3, fail_reason(opcode)) && after == before,
        Some(s) => {
            let duration = or_i32(row->0.duration, 0);
            &&& s.shows == (if hides(row->0) {
                Some(stealth_state(row->0))
            } else {
                None
            })
            &&& s.buff == stealth_buff(skill_id, caster_sid, duration, now_ms)
            &&& words == data.update(1, 1).update(3, duration)
            &&& after == (StealthCaster {
                invisibility_type: if hides(row->0) {
                    stealth_state(row->0)
                } else {
                    before.invisibility_type
                },
                stealth_end_time: if duration > 0 {
                    (now_secs + duration) as u64
                } else {
                    before.stealth_end_time
                },
                ..before
            })
        },
    }
}

/// Use a stealth skill; `None` where it fails. The caster's invisibility and the end of their
/// stealth are set.
pub fn execute_type9(
    m: &mut MagicInstance,
    row: &Option<MagicType9Row>,
    caster_sid: u16,
    c: &mut StealthCaster,
    now_ms: u64,
    now_secs: u64,
) -> (r: Option<Stealth>)
    requires
        now_secs <= u64::MAX - i32::MAX,
    ensures
        same_cast(*final(m), *old(m)),
        is_stealth(
            r,
            old(m).skill_id,
            old(m).opcode,
            final(m).data@,
            old(m).data@,
            *final(c),
            *old(c),
            *row,
            caster_sid,
            now_ms,
            now_secs,
        ),
{
    let row: MagicType9Row = match row {
        Some(d) => *d,
        None => {
            let _packet = m.send_skill_failed();
            return None;
        },
    };
    let duration: i32 = row.duration.unwrap_or(0);
    let state: u8 = row.state_change.unwrap_or(0) as u8;
    let mut shows: Option<u8> = None;
    if state == 1 || state == 2 {
        if c.zone_id == ZONE_FORGOTTEN_TEMPLE || c.zone_id == ZONE_DUNGEON_DEFENCE
            || !c.can_stealth || c.invisibility_type != 0 {
            let _packet = m.send_skill_failed();
            return None;
        }
        c.invisibility_type = state;
        shows = Some(state);
    }
    if duration > 0 {
        c.stealth_end_time = now_secs + duration as u64;
    }
    m.data[1] = 1;
    m.data[3] = duration;
    Some(
        Stealth {
            shows,
            buff: ActiveBuff {
                skill_id: m.skill_id,
                buff_type: BUFF_TYPE_INVISIBILITY,
                caster_sid,
                start_time: now_ms,
                duration_secs: duration as u32,
                attack_speed: 0,
                speed: 0,
                ac: 0,
                ac_pct: 0,
                attack: 0,
                magic_attack: 0,
                max_hp: 0,
                max_hp_pct: 0,
                max_mp: 0,
                max_mp_pct: 0,
                str_mod: 0,
                sta_mod: 0,
                dex_mod: 0,
                intel_mod: 0,
                cha_mod: 0,
                fire_r: 0,
                cold_r: 0,
                lightning_r: 0,
                magic_r: 0,
                disease_r: 0,
                poison_r: 0,
                hit_rate: 0,
                avoid_rate: 0,
                weapon_damage: 0,
                ac_sour: 0,
                duration_extended: false,
                is_buff: true,
            },
        },
    )
}

/// Show a hidden player's state to those near.
pub fn build_invisible(sid: u16, state: u8) -> (p: Packet)
    ensures
        p.opcode == WIZ_STATE_CHANGE,
        p.data@ == state_change_payload(sid as u32, STATE_CHANGE_INVISIBILITY, state as u32),
        p.opcode == 0x29,
        p.data@ == state_change_payload(sid as u32, 7, state as u32),
{
    build_state_change(sid as u32, STATE_CHANGE_INVISIBILITY, state as u32)
}

/// Whoever is hidden cannot hide again.
pub proof fn law_hidden_players_cannot_hide(row: MagicType9Row, c: StealthCaster)
    requires
        hides(row),
        c.invisibility_type != 0,
    ensures
        !stealth_ok(Some(row), c),
{
}

/// Control skills never touch players.
pub proof fn law_control_spares_players(row: Option<MagicType7Row>, target_id: i32)
    requires
        target_id < NPC_BAND,
        type7_plan(row, target_id) is Done,
    ensures
        type7_plan(row, target_id)->hurts is None,
        type7_plan(row, target_id)->sleeps is None,
{
}

/// What a control skill does: it hurts an NPC where its row has damage, and puts one to sleep
/// where its row changes the target in the second way; both are of the very NPC that it is
/// aimed at, and ids below 10000 are none. Without a row it fails.
pub proof fn law_what_control_does(row: Option<MagicType7Row>, target_id: i32)
    ensures
        match (row, type7_plan(row, target_id)) {
            (Some(row), Type7Plan::Done { hurts, damage, sleeps }) => {
                &&& damage == row.damage
                &&& hurts is Some <==> target_id >= 10000 && row.damage >= 1
                &&& hurts is Some ==> hurts->0 == target_id
                &&& sleeps is Some <==> target_id >= 10000 && row.target_change == 2
                &&& sleeps is Some ==> sleeps->0 == target_id
            },
            (None, Type7Plan::Failed) => true,
            _ => false,
        },
{
}

/// Which stealth skills work: those whose state is 1 or 2 hide, and need a visible caster who
/// may hide, outside of zones 55 and 89; every other one works anywhere.
pub proof fn law_which_stealth_works(row: MagicType9Row, c: StealthCaster)
    requires
        0 <= or_i32(row.state_change, 0) <= 255,
    ensures
        stealth_state(row) == or_i32(row.state_change, 0),
        hides(row) <==> row.state_change == Some(1i32) || row.state_change == Some(2i32),
        stealth_ok(Some(row), c) <==> !hides(row) || (c.zone_id != 55 && c.zone_id != 89
            && c.can_stealth && c.invisibility_type == 0),
        !stealth_ok(None, c),
{
}

/// The buff that tracks stealth: of type 100, of its own skill, caster, start and duration, a
/// help to its bearer, and without any number of its own.
pub proof fn law_stealth_buffs(skill_id: u32, caster_sid: u16, duration: i32, now_ms: u64)
    requires
        duration >= 0,
    ensures
        ({
            let b = stealth_buff(skill_id, caster_sid, duration, now_ms);
            &&& b.skill_id == skill_id && b.caster_sid == caster_sid && b.start_time == now_ms
            &&& b.duration_secs == duration && b.buff_type == 100 && b.is_buff
            &&& !b.duration_extended
            &&& b.attack_speed == 0 && b.speed == 0 && b.ac == 0 && b.ac_pct == 0
            &&& b.attack == 0 && b.magic_attack == 0
            &&& b.max_hp == 0 && b.max_hp_pct == 0 && b.max_mp == 0 && b.max_mp_pct == 0
            &&& b.str_mod == 0 && b.sta_mod == 0 && b.dex_mod == 0 && b.intel_mod == 0
            &&& b.cha_mod == 0
            &&& b.fire_r == 0 && b.cold_r == 0 && b.lightning_r == 0
            &&& b.magic_r == 0 && b.disease_r == 0 && b.poison_r == 0
            &&& b.hit_rate == 0 && b.avoid_rate == 0 && b.weapon_damage == 0 && b.ac_sour == 0
        }),
{
}

/// A control skill's cast says that it worked in its second word, or without a row why it failed
/// in its fourth. Every other word stays.
pub proof fn law_control_leaves_its_words(opcode: u8, data: Seq<i32>, has_row: bool, i: int)
    requires
        data.len() == 7,
        0 <= i < 7,
    ensures
        ({
            let words = control_words(opcode, data, has_row);
            &&& words.len() == 7
            &&& has_row ==> words[1] == 1 && (i != 1 ==> words[i] == data[i])
            &&& !has_row && opcode == 1 ==> words[3] == -100
            &&& !has_row && opcode != 1 ==> words[3] == -103
            &&& !has_row && i != 3 ==> words[i] == data[i]
        }),
{
}

/// What a stealth skill does. States 1 and 2 hide a visible caster who may hide, outside of zones
/// 55 and 89; other states hide nobody and always work. One that works is tracked from now on
/// for its duration, which its cast shows in its fourth word, and ends that many seconds from
/// now. One that fails changes nothing of its caster.
pub proof fn law_what_stealth_does(
    r: Option<Stealth>,
    skill_id: u32,
    opcode: u8,
    words: Seq<i32>,
    data: Seq<i32>,
    after: StealthCaster,
    before: StealthCaster,
    row: Option<MagicType9Row>,
    caster_sid: u16,
    now_ms: u64,
    now_secs: u64,
    i: int,
)
    requires
        is_stealth(
            r,
            skill_id,
            opcode,
            words,
            data,
            after,
            before,
            row,
            caster_sid,
            now_ms,
            now_secs,
        ),
        data.len() == 7,
        0 <= i < 7,
        row is Some ==> 0 <= or_i32(row->0.state_change, 0) <= 255,
        now_secs <= u64::MAX - i32::MAX,
    ensures
        ({
            let state = or_i32(row->0.state_change, 0);
            let hidden = state == 1 || state == 2;
            let can = before.zone_id != 55 && before.zone_id != 89 && before.can_stealth
                && before.invisibility_type == 0;
            let duration = or_i32(row->0.duration, 0);
            &&& r is Some <==> row is Some && (hidden ==> can)
            &&& r is None ==> {
                &&& after == before
                &&& opcode == 1 ==> words[3] == -100
                &&& opcode != 1 ==> words[3] == -103
                &&& i != 3 ==> words[i] == data[i]
            }
            &&& r is Some ==> {
                &&& words[1] == 1 && words[3] == duration
                &&& i != 1 && i != 3 ==> words[i] == data[i]
                &&& after.zone_id == before.zone_id && after.can_stealth == before.can_stealth
                &&& hidden ==> r->0.shows == Some(state as u8) && after.invisibility_type == state
                &&& !hidden ==> r->0.shows is None && after.invisibility_type
                    == before.invisibility_type
                &&& duration >= 1 ==> after.stealth_end_time - now_secs == duration
                &&& duration <= 0 ==> after.stealth_end_time == before.stealth_end_time
                &&& r->0.buff.skill_id == skill_id && r->0.buff.caster_sid == caster_sid
                &&& r->0.buff.start_time == now_ms && r->0.buff.buff_type == 100
                &&& duration >= 0 ==> r->0.buff.duration_secs == duration
            }
        }),
{
}

} // verus!
