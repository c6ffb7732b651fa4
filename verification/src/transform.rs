//! Transformations into NPCs, monsters and siege machines.

use crate::arith::clamp_to;
use crate::constants::{
    ABNORMAL_NORMAL, AUTHORITY_GM, TRANSFORMATION_MONSTER, TRANSFORMATION_NPC,
    TRANSFORMATION_SIEGE, ZONE_BATTLE2, ZONE_BATTLE3, ZONE_DELOS,
};
use crate::instance::{fail_reason, same_cast, MagicInstance};
use crate::skills::{is_transformation_monster_zone, transformation_monster_zone};
use crate::tables::MagicType6Row;
use vstd::prelude::*;

verus! {

/// Uses of a transformation that the rules tell apart.
pub const USE_SIEGE: i32 = 0;
pub const USE_MONSTER: i32 = 1;
pub const USE_OREADS_GUARD: i32 = 5;
pub const USE_MOVING_TOWER: i32 = 6;

/// What a transformation makes of a player, by its use; unknown uses make nothing.
pub open spec fn transformation_kind(user_skill_use: i32) -> Option<u8> {
    if user_skill_use == 1 {
        Some(TRANSFORMATION_MONSTER)
    } else if user_skill_use == 3 || user_skill_use == 4 || user_skill_use == 7 {
        Some(TRANSFORMATION_NPC)
    } else if user_skill_use == 0 || user_skill_use == 5 || user_skill_use == 6 {
        Some(TRANSFORMATION_SIEGE)
    } else {
        None
    }
}

/// What a transformation makes of a player.
pub fn transformation_type_from_user_skill_use(user_skill_use: i32) -> (r: Option<u8>)
    ensures
        r == transformation_kind(user_skill_use),
{
    match user_skill_use {
        1 => Some(TRANSFORMATION_MONSTER),
        3 | 4 | 7 => Some(TRANSFORMATION_NPC),
        0 | 5 | 6 => Some(TRANSFORMATION_SIEGE),
        _ => None,
    }
}

/// The caster of a transformation.
#[derive(Clone, Copy, Debug)]
pub struct TransformCaster {
    pub present: bool,
    /// Whether the caster has the item that the skill uses; true where it uses none.
    pub has_item: bool,
    pub zone_id: u16,
    /// Whether nations may fight each other in the caster's zone.
    pub hostile_zone: bool,
    pub transformed: bool,
    pub nation: u8,
    pub authority: u8,
}

/// Whether siege machines of a skill may stand in a zone.
pub open spec fn siege_zone(magic_num: i32, zone_id: u16) -> bool {
    if magic_num == 450001 {
        zone_id == ZONE_DELOS || zone_id == ZONE_BATTLE2 || zone_id == ZONE_BATTLE3
    } else if magic_num == 450003 {
        zone_id == ZONE_BATTLE2
    } else {
        zone_id == ZONE_DELOS
    }
}

/// Whether a transformation may be used in a zone.
pub open spec fn transform_zone_ok(row: MagicType6Row, magic_num: i32, c: TransformCaster) -> bool {
    if row.user_skill_use == USE_MONSTER {
        !c.hostile_zone || transformation_monster_zone(c.zone_id)
    } else if row.user_skill_use == USE_SIEGE {
        siege_zone(magic_num, c.zone_id)
    } else if row.user_skill_use == USE_MOVING_TOWER {
        c.zone_id == ZONE_DELOS
    } else {
        true
    }
}

/// A transformation that takes place.
#[derive(Clone, Copy, Debug, PartialEq, Eq, Structural)]
pub struct Transformation {
    pub kind: u8,
    pub transform_id: u16,
    pub skill_id: u32,
    pub duration_secs: u16,
    /// Whether the caster must be made visible first.
    pub appears_first: bool,
}

/// Whether a transformation takes place.
#[derive(Clone, Copy, Debug, PartialEq, Eq, Structural)]
pub enum TransformGate {
    /// The caster has left; nothing happens.
    Lost,
    /// The caster is told that the skill failed.
    Failed,
    /// This transformation is not in use; nothing happens.
    Disabled,
    Done(Transformation),
}

/// Whether a transformation takes place: the caster has the item, stands in the right zone, is
/// not transformed yet, and belongs to the right nation.
pub open spec fn transform_gate(
    row: Option<MagicType6Row>,
    magic_num: i32,
    c: TransformCaster,
) -> TransformGate {
    match row {
        None => TransformGate::Failed,
        Some(row) => if !c.present {
            TransformGate::Lost
        } else if !c.has_item {
            TransformGate::Failed
        } else if row.user_skill_use == USE_OREADS_GUARD {
            TransformGate::Disabled
        } else if !transform_zone_ok(row, magic_num, c) || c.transformed || (row.nation != 0
            && row.nation != c.nation) {
            TransformGate::Failed
        } else {
            match transformation_kind(row.user_skill_use) {
                None => TransformGate::Failed,
                Some(kind) => TransformGate::Done(
                    Transformation {
                        kind,
                        transform_id: row.transform_id as u16,
                        skill_id: magic_num as u32,
                        duration_secs: clamp_to(row.duration as int, 0, u16::MAX as int) as u16,
                        appears_first: c.authority == AUTHORITY_GM,
                    },
                ),
            }
        },
    }
}

/// The data words of a cast after a transformation.
pub open spec fn transform_words(opcode: u8, data: Seq<i32>, r: TransformGate) -> Seq<i32> {
    match r {
        TransformGate::Done(t) => data.update(1, 1).update(3, t.duration_secs as i32),
        TransformGate::Failed => data.update(3, fail_reason(opcode)),
        _ => data,
    }
}

/// Carry out a transformation. Where it takes place, its cast notes that and the duration.
pub fn execute_type6(
    m: &mut MagicInstance,
    row: &Option<MagicType6Row>,
    magic_num: i32,
    c: &TransformCaster,
) -> (r: TransformGate)
    ensures
        r == transform_gate(*row, magic_num, *c),
        same_cast(*final(m), *old(m)),
        final(m).data@ == transform_words(old(m).opcode, old(m).data@, r),
{
    let gate: TransformGate = check_transformation(row, magic_num, c);
    match gate {
        TransformGate::Done(t) => {
            m.data[1] = 1;
            m.data[3] = t.duration_secs as i32;
        },
        TransformGate::Failed => {
            let _packet = m.send_skill_failed();
        },
        _ => {},
    }
    gate
}

/// Check whether a transformation takes place.
fn check_transformation(
    row: &Option<MagicType6Row>,
    magic_num: i32,
    c: &TransformCaster,
) -> (r: TransformGate)
    ensures
        r == transform_gate(*row, magic_num, *c),
{
    let row: MagicType6Row = match row {
        Some(d) => *d,
        None => {
            return TransformGate::Failed;
        },
    };
    if !c.present {
        return TransformGate::Lost;
    }
    if !c.has_item {
        return TransformGate::Failed;
    }
    if row.user_skill_use == USE_OREADS_GUARD {
        return TransformGate::Disabled;
    }
    if row.user_skill_use == USE_MONSTER {
        if c.hostile_zone && !is_transformation_monster_zone(c.zone_id) {
            return TransformGate::Failed;
        }
    } else if row.user_skill_use == USE_SIEGE {
        let allowed: bool = match magic_num {
            450001 => c.zone_id == ZONE_DELOS || c.zone_id == ZONE_BATTLE2 || c.zone_id
                == ZONE_BATTLE3,
            450003 => c.zone_id == ZONE_BATTLE2,
            _ => c.zone_id == ZONE_DELOS,
        };
        if !allowed {
            return TransformGate::Failed;
        }
    } else if row.user_skill_use == USE_MOVING_TOWER {
        if c.zone_id != ZONE_DELOS {
            return TransformGate::Failed;
        }
    }
    if c.transformed || (row.nation != 0 && row.nation != c.nation as i32) {
        return TransformGate::Failed;
    }
    let kind: u8 = match transformation_type_from_user_skill_use(row.user_skill_use) {
        Some(k) => k,
        None => {
            return TransformGate::Failed;
        },
    };
    let duration_secs: u16 = crate::arith::clamp_i32(row.duration, 0, u16::MAX as i32) as u16;
    TransformGate::Done(
        Transformation {
            kind,
            transform_id: row.transform_id as u16,
            skill_id: magic_num as u32,
            duration_secs,
            appears_first: c.authority == AUTHORITY_GM,
        },
    )
}

/// A player's shape.
#[derive(Clone, Copy, Debug, PartialEq, Eq, Structural)]
pub struct Shape {
    /// 0 where the player is not transformed.
    pub transformation_type: u8,
    pub transform_id: u16,
    pub transform_skill_id: u32,
    pub started_ms: u64,
    pub duration_ms: u64,
    pub abnormal_type: u32,
    pub old_abnormal_type: u32,
}

/// The shape of a player whom a transformation has changed. The look before is kept.
pub open spec fn changed_shape(s: Shape, t: Transformation, now_ms: u64) -> Shape {
    Shape {
        transformation_type: t.kind,
        transform_id: t.transform_id,
        transform_skill_id: t.skill_id,
        started_ms: now_ms,
        duration_ms: (t.duration_secs * 1000) as u64,
        abnormal_type: t.skill_id,
        old_abnormal_type: s.abnormal_type,
    }
}

/// Give a player a new shape.
pub fn begin_transformation(shape: &mut Shape, t: &Transformation, now_ms: u64)
    ensures
        *final(shape) == changed_shape(*old(shape), *t, now_ms),
{
    *shape = Shape {
        transformation_type: t.kind,
        transform_id: t.transform_id,
        transform_skill_id: t.skill_id,
        started_ms: now_ms,
        duration_ms: t.duration_secs as u64 * 1000,
        abnormal_type: t.skill_id,
        old_abnormal_type: shape.abnormal_type,
    };
}

/// The shape of a player whose transformation has ended.
pub open spec fn plain_shape(s: Shape) -> Shape {
    Shape {
        transformation_type: 0,
        transform_id: 0,
        transform_skill_id: 0,
        started_ms: 0,
        duration_ms: 0,
        abnormal_type: ABNORMAL_NORMAL,
        old_abnormal_type: s.abnormal_type,
    }
}

/// The skill that a player's transformation came from, if there is one.
pub open spec fn ended_skill(s: Shape) -> Option<u32> {
    if s.transformation_type != 0 {
        Some(s.transform_skill_id)
    } else {
        None
    }
}

/// The shape of a player after their transformation, if there was one, was ended.
pub open spec fn ended_shape(s: Shape) -> Shape {
    if s.transformation_type != 0 {
        plain_shape(s)
    } else {
        s
    }
}

/// End a player's transformation, if there is one. The skill that it came from is no longer
/// saved then.
pub fn cancel_transformation(shape: &mut Shape) -> (r: Option<u32>)
    ensures
        r == ended_skill(*old(shape)),
        *final(shape) == ended_shape(*old(shape)),
{
    if shape.transformation_type == 0 {
        return None;
    }
    let skill_id: u32 = shape.transform_skill_id;
    *shape = Shape {
        transformation_type: 0,
        transform_id: 0,
        transform_skill_id: 0,
        started_ms: 0,
        duration_ms: 0,
        abnormal_type: ABNORMAL_NORMAL,
        old_abnormal_type: shape.abnormal_type,
    };
    Some(skill_id)
}

/// Nobody is transformed twice.
pub proof fn law_one_shape_at_a_time(row: Option<MagicType6Row>, magic_num: i32, c: TransformCaster)
    requires
        c.transformed,
    ensures
        !(transform_gate(row, magic_num, c) is Done),
{
}

/// Siege machines stand in Delos and the battle zones only.
pub proof fn law_siege_machines_stay_in_sieges(
    row: MagicType6Row,
    magic_num: i32,
    c: TransformCaster,
)
    requires
        row.user_skill_use == USE_SIEGE || row.user_skill_use == USE_MOVING_TOWER,
        transform_gate(Some(row), magic_num, c) is Done,
    ensures
        c.zone_id == ZONE_DELOS || c.zone_id == ZONE_BATTLE2 || c.zone_id == ZONE_BATTLE3,
{
}

/// A transformation that has ended leaves no trace but the look that was last worn, whatever
/// the player was before and whenever it began.
pub proof fn law_ended_transformations_leave_no_trace(
    s: Shape,
    other: Shape,
    t: Transformation,
    now_ms: u64,
    later_ms: u64,
)
    ensures
        plain_shape(changed_shape(s, t, now_ms)) == plain_shape(changed_shape(other, t, later_ms)),
        plain_shape(changed_shape(s, t, now_ms)).transformation_type == 0,
        plain_shape(changed_shape(s, t, now_ms)).abnormal_type == ABNORMAL_NORMAL,
        plain_shape(changed_shape(s, t, now_ms)).old_abnormal_type == t.skill_id,
{
}

/// Every transformation that takes place is one that can be ended again.
pub proof fn law_transformations_can_end(
    row: Option<MagicType6Row>,
    magic_num: i32,
    c: TransformCaster,
)
    requires
        transform_gate(row, magic_num, c) is Done,
    ensures
        transform_gate(row, magic_num, c)->Done_0.kind != 0,
{
}

/// What transformations make of a player, by their use: 1 a monster, 3, 4 and 7 an NPC, 0, 5 and
/// 6 a siege machine, and others nothing.
pub proof fn law_what_players_turn_into(used: i32)
    ensures
        transformation_kind(used) == Some(1u8) <==> used == 1,
        transformation_kind(used) == Some(2u8) <==> used == 3 || used == 4 || used == 7,
        transformation_kind(used) == Some(3u8) <==> used == 0 || used == 5 || used == 6,
        transformation_kind(used) is None <==> used < 0 || used == 2 || used > 7,
{
}

/// Where transformations work: monsters where nations do not fight and in the zones for them;
/// the siege machine of 450001 in zones 30, 62 and 63, that of 450003 in zone 62, and the others
/// and moving towers in zone 30; all else anywhere.
pub proof fn law_where_transformations_work(row: MagicType6Row, magic_num: i32, c: TransformCaster)
    ensures
        ({
            let used = row.user_skill_use;
            let ok = transform_zone_ok(row, magic_num, c);
            &&& used == 1 ==> (ok <==> !c.hostile_zone || transformation_monster_zone(c.zone_id))
            &&& used == 0 && magic_num == 450001 ==> (ok <==> c.zone_id == 30 || c.zone_id == 62
                || c.zone_id == 63)
            &&& used == 0 && magic_num == 450003 ==> (ok <==> c.zone_id == 62)
            &&& used == 0 && magic_num != 450001 && magic_num != 450003 ==> (ok <==> c.zone_id
                == 30)
            &&& used == 6 ==> (ok <==> c.zone_id == 30)
            &&& used != 0 && used != 1 && used != 6 ==> ok
        }),
{
}

/// Which transformations take place: with a row, a caster who is there, has the item, is not
/// transformed, and is of the row's nation where it has one, in the right zone, of a known use
/// other than 5, which is not in use. What takes place is the row's shape for the row's
/// duration, by the skill's number; game masters must be seen first.
pub proof fn law_which_transformations_take_place(
    row: MagicType6Row,
    magic_num: i32,
    c: TransformCaster,
)
    ensures
        transform_gate(None, magic_num, c) is Failed,
        ({
            let used = row.user_skill_use;
            let r = transform_gate(Some(row), magic_num, c);
            let fits = transform_zone_ok(row, magic_num, c) && !c.transformed && (row.nation == 0
                || row.nation == c.nation) && transformation_kind(used) is Some;
            &&& r is Lost <==> !c.present
            &&& r is Disabled <==> c.present && c.has_item && used == 5
            &&& match r {
                TransformGate::Done(t) => {
                    &&& c.present && c.has_item && used != 5 && fits
                    &&& transformation_kind(used) == Some(t.kind)
                    &&& 0 <= row.transform_id <= 65535 ==> t.transform_id == row.transform_id
                    &&& magic_num >= 0 ==> t.skill_id == magic_num
                    &&& 0 <= row.duration <= 65535 ==> t.duration_secs == row.duration
                    &&& row.duration < 0 ==> t.duration_secs == 0
                    &&& row.duration > 65535 ==> t.duration_secs == 65535
                    &&& t.appears_first <==> c.authority == 0
                },
                TransformGate::Failed => c.present && (!c.has_item || (used != 5 && !fits)),
                _ => true,
            }
        }),
{
}

/// A transformation's cast says that it took place in its second word and for how long in its
/// fourth; a failed one says why in its fourth; others say nothing. Every other word stays.
pub proof fn law_transformations_leave_their_words(
    opcode: u8,
    data: Seq<i32>,
    r: TransformGate,
    i: int,
)
    requires
        data.len() == 7,
        0 <= i < 7,
    ensures
        ({
            let words = transform_words(opcode, data, r);
            &&& words.len() == 7
            &&& i != 1 && i != 3 ==> words[i] == data[i]
            &&& match r {
                TransformGate::Done(t) => words[1] == 1 && words[3] == t.duration_secs,
                TransformGate::Failed => words[1] == data[1] && (opcode == 1 ==> words[3] == -100)
                    && (opcode != 1 ==> words[3] == -103),
                _ => words[i] == data[i],
            }
        }),
{
}

/// What a new shape is: the transformation's kind, form and skill, from now on and for its
/// seconds in thousandths, with the look of its skill; the look before is kept. Ending it leaves
/// the normal look and nothing of it, and gives back its skill; who is not transformed stays as
/// they are.
pub proof fn law_shapes_change_and_end(s: Shape, t: Transformation, now_ms: u64)
    ensures
        ({
            let n = changed_shape(s, t, now_ms);
            &&& n.transformation_type == t.kind
            &&& n.transform_id == t.transform_id
            &&& n.transform_skill_id == t.skill_id
            &&& n.started_ms == now_ms
            &&& n.duration_ms == 1000 * t.duration_secs
            &&& n.abnormal_type == t.skill_id
            &&& n.old_abnormal_type == s.abnormal_type
        }),
        s.transformation_type == 0 ==> ended_skill(s) is None && ended_shape(s) == s,
        s.transformation_type != 0 ==> {
            let e = ended_shape(s);
            &&& ended_skill(s) == Some(s.transform_skill_id)
            &&& e.transformation_type == 0 && e.transform_id == 0 && e.transform_skill_id == 0
            &&& e.started_ms == 0 && e.duration_ms == 0
            &&& e.abnormal_type == 1
            &&& e.old_abnormal_type == s.abnormal_type
        },
{
}

} // verus!
