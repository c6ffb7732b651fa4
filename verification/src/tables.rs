//! Rows of the skill tables, as far as the rules read them.
//!
//! A column that a table may leave empty is an `Option`; the rules name the value that stands
//! in for an empty column.

use vstd::prelude::*;

verus! {

/// A skill's main row.
#[derive(Clone, Copy, Debug)]
pub struct MagicRow {
    pub magic_num: i32,
    pub t_1: Option<i32>,
    pub before_action: Option<i32>,
    pub flying_effect: Option<i16>,
    pub moral: Option<i16>,
    pub skill: Option<i16>,
    pub msp: Option<i16>,
    pub hp: Option<i16>,
    pub s_sp: Option<i16>,
    pub item_group: Option<i16>,
    pub use_item: Option<i32>,
    pub cast_time: Option<i16>,
    pub recast_time: Option<i16>,
    pub success_rate: Option<i16>,
    pub type1: Option<i16>,
    pub type2: Option<i16>,
    pub range: Option<i16>,
    pub use_standing: Option<i16>,
    pub icelightrate: Option<i16>,
}

impl Default for MagicRow {
    /// A row with number 0 and every other column empty.
    fn default() -> (r: MagicRow)
        ensures
            r.magic_num == 0,
            r.t_1 is None,
            r.before_action is None,
            r.flying_effect is None,
            r.moral is None,
            r.skill is None,
            r.msp is None,
            r.hp is None,
            r.s_sp is None,
            r.item_group is None,
            r.use_item is None,
            r.cast_time is None,
            r.recast_time is None,
            r.success_rate is None,
            r.type1 is None,
            r.type2 is None,
            r.range is None,
            r.use_standing is None,
            r.icelightrate is None,
    {
        MagicRow {
            magic_num: 0,
            t_1: None,
            before_action: None,
            flying_effect: None,
            moral: None,
            skill: None,
            msp: None,
            hp: None,
            s_sp: None,
            item_group: None,
            use_item: None,
            cast_time: None,
            recast_time: None,
            success_rate: None,
            type1: None,
            type2: None,
            range: None,
            use_standing: None,
            icelightrate: None,
        }
    }
}

/// A melee skill's row.
#[derive(Clone, Copy, Debug)]
pub struct MagicType1Row {
    pub i_num: i32,
    pub hit_type: Option<i32>,
    pub hit_rate: Option<i32>,
    pub hit: Option<i32>,
    pub add_damage: Option<i32>,
    pub add_dmg_perc_to_user: Option<i32>,
    pub add_dmg_perc_to_npc: Option<i32>,
}

/// A ranged skill's row.
#[derive(Clone, Copy, Debug)]
pub struct MagicType2Row {
    pub i_num: i32,
    pub hit_type: Option<i32>,
    pub hit_rate: Option<i32>,
    pub add_damage: Option<i32>,
    pub need_arrow: Option<i32>,
    pub add_dmg_perc_to_user: Option<i16>,
    pub add_dmg_perc_to_npc: Option<i16>,
}

/// A spell's row: direct effect, effect over time, or both.
#[derive(Clone, Copy, Debug)]
pub struct MagicType3Row {
    pub first_damage: Option<i32>,
    pub time_damage: Option<i32>,
    pub duration: Option<i32>,
    pub direct_type: Option<i32>,
    pub attribute: Option<i32>,
    pub radius: Option<i32>,
    pub add_dmg_perc_to_user: Option<i16>,
    pub add_dmg_perc_to_npc: Option<i16>,
}

/// What a buff does, besides the numbers in its row.
#[derive(Clone, Copy, Debug, PartialEq, Eq, Structural)]
pub enum BuffKind {
    Fishing,
    MageArmor,
    MirrorDamageParty,
    DaggerBowDefense,
    SilenceTarget,
    NoPotions,
    KaulTransformation,
    Undead,
    Freeze,
    Unsight,
    Blind,
    DisableTargeting,
    BlockPhysicalDamage,
    BlockMagicalDamage,
    DevilTransform,
    NoRecall,
    ProhibitInvis,
    ResisAndMagicDmg,
    BlockCurse,
    BlockCurseReflect,
    InstantMagic,
    NpDropNoah,
    Jackpot,
    WeaponDamage,
    AttackSpeed,
    AttackSpeedArmor,
    Weight,
    Loyalty,
    NoahBonus,
    PremiumMerchant,
    ManaAbsorb,
    IgnoreWeapon,
    DecreaseResist,
    Experience,
    VariousEffects,
    LoyaltyAmount,
    Size,
    SnowmanTiti,
    Speed,
    Speed2,
    Stun,
    Other,
}

/// A buff's row. `kind` is the meaning of the number in `buff_type`.
#[derive(Clone, Copy, Debug)]
pub struct MagicType4Row {
    pub buff_type: Option<i32>,
    pub kind: BuffKind,
    pub duration: Option<i32>,
    pub radius: Option<i32>,
    pub attack_speed: Option<i32>,
    pub speed: Option<i32>,
    pub ac: Option<i32>,
    pub ac_pct: Option<i32>,
    pub attack: Option<i32>,
    pub magic_attack: Option<i32>,
    pub max_hp: Option<i32>,
    pub max_hp_pct: Option<i32>,
    pub max_mp: Option<i32>,
    pub max_mp_pct: Option<i32>,
    pub str: Option<i32>,
    pub sta: Option<i32>,
    pub dex: Option<i32>,
    pub intel: Option<i32>,
    pub cha: Option<i32>,
    pub fire_r: Option<i32>,
    pub cold_r: Option<i32>,
    pub lightning_r: Option<i32>,
    pub magic_r: Option<i32>,
    pub disease_r: Option<i32>,
    pub poison_r: Option<i32>,
    pub hit_rate: Option<i32>,
    pub avoid_rate: Option<i32>,
    pub exp_pct: Option<i32>,
    pub special_amount: Option<i32>,
}

/// A cure or resurrection skill's row.
#[derive(Clone, Copy, Debug)]
pub struct MagicType5Row {
    pub sub_type: Option<i32>,
    pub exp_recover: Option<i32>,
    pub need_stone: Option<i32>,
}

/// A transformation skill's row.
#[derive(Clone, Copy, Debug)]
pub struct MagicType6Row {
    pub user_skill_use: i32,
    pub nation: i32,
    pub duration: i32,
    pub transform_id: i32,
}

/// A summoning or crowd control skill's row.
#[derive(Clone, Copy, Debug)]
pub struct MagicType7Row {
    pub damage: i16,
    pub target_change: i32,
}

/// A teleport or knockback skill's row.
#[derive(Clone, Copy, Debug)]
pub struct MagicType8Row {
    pub warp_type: i32,
    pub radius: i32,
    pub kick_distance: i32,
}

/// A stealth skill's row.
#[derive(Clone, Copy, Debug)]
pub struct MagicType9Row {
    pub duration: Option<i32>,
    pub state_change: Option<i32>,
}

/// A 16-bit column with 0 where it is empty.
pub open spec fn filled_i16(x: Option<i16>) -> Option<i16> {
    match x {
        Some(_) => x,
        None => Some(0i16),
    }
}

/// A 32-bit column with 0 where it is empty.
pub open spec fn filled_i32(x: Option<i32>) -> Option<i32> {
    match x {
        Some(_) => x,
        None => Some(0i32),
    }
}

/// A skill's row with 0 in its empty columns, but for its rate of success.
pub open spec fn filled_skill(row: MagicRow) -> MagicRow {
    MagicRow {
        t_1: filled_i32(row.t_1),
        before_action: filled_i32(row.before_action),
        flying_effect: filled_i16(row.flying_effect),
        moral: filled_i16(row.moral),
        skill: filled_i16(row.skill),
        msp: filled_i16(row.msp),
        hp: filled_i16(row.hp),
        s_sp: filled_i16(row.s_sp),
        item_group: filled_i16(row.item_group),
        use_item: filled_i32(row.use_item),
        cast_time: filled_i16(row.cast_time),
        recast_time: filled_i16(row.recast_time),
        type1: filled_i16(row.type1),
        type2: filled_i16(row.type2),
        range: filled_i16(row.range),
        use_standing: filled_i16(row.use_standing),
        icelightrate: filled_i16(row.icelightrate),
        ..row
    }
}

/// A melee skill's row with 0 in its empty columns.
pub open spec fn filled_melee(row: MagicType1Row) -> MagicType1Row {
    MagicType1Row {
        hit_type: filled_i32(row.hit_type),
        hit_rate: filled_i32(row.hit_rate),
        hit: filled_i32(row.hit),
        add_damage: filled_i32(row.add_damage),
        add_dmg_perc_to_user: filled_i32(row.add_dmg_perc_to_user),
        add_dmg_perc_to_npc: filled_i32(row.add_dmg_perc_to_npc),
        ..row
    }
}

/// A ranged skill's row with 0 in its empty columns.
pub open spec fn filled_ranged(row: MagicType2Row) -> MagicType2Row {
    MagicType2Row {
        hit_type: filled_i32(row.hit_type),
        hit_rate: filled_i32(row.hit_rate),
        add_damage: filled_i32(row.add_damage),
        need_arrow: filled_i32(row.need_arrow),
        add_dmg_perc_to_user: filled_i16(row.add_dmg_perc_to_user),
        add_dmg_perc_to_npc: filled_i16(row.add_dmg_perc_to_npc),
        ..row
    }
}

/// A spell's row with 0 in its empty columns.
pub open spec fn filled_spell(row: MagicType3Row) -> MagicType3Row {
    MagicType3Row {
        first_damage: filled_i32(row.first_damage),
        time_damage: filled_i32(row.time_damage),
        duration: filled_i32(row.duration),
        direct_type: filled_i32(row.direct_type),
        attribute: filled_i32(row.attribute),
        radius: filled_i32(row.radius),
        add_dmg_perc_to_user: filled_i16(row.add_dmg_perc_to_user),
        add_dmg_perc_to_npc: filled_i16(row.add_dmg_perc_to_npc),
        ..row
    }
}

/// A buff's row with 0 in its empty columns.
pub open spec fn filled_buff(row: MagicType4Row) -> MagicType4Row {
    MagicType4Row {
        buff_type: filled_i32(row.buff_type),
        duration: filled_i32(row.duration),
        radius: filled_i32(row.radius),
        attack_speed: filled_i32(row.attack_speed),
        speed: filled_i32(row.speed),
        ac: filled_i32(row.ac),
        ac_pct: filled_i32(row.ac_pct),
        attack: filled_i32(row.attack),
        magic_attack: filled_i32(row.magic_attack),
        max_hp: filled_i32(row.max_hp),
        max_hp_pct: filled_i32(row.max_hp_pct),
        max_mp: filled_i32(row.max_mp),
        max_mp_pct: filled_i32(row.max_mp_pct),
        str: filled_i32(row.str),
        sta: filled_i32(row.sta),
        dex: filled_i32(row.dex),
        intel: filled_i32(row.intel),
        cha: filled_i32(row.cha),
        fire_r: filled_i32(row.fire_r),
        cold_r: filled_i32(row.cold_r),
        lightning_r: filled_i32(row.lightning_r),
        magic_r: filled_i32(row.magic_r),
        disease_r: filled_i32(row.disease_r),
        poison_r: filled_i32(row.poison_r),
        hit_rate: filled_i32(row.hit_rate),
        avoid_rate: filled_i32(row.avoid_rate),
        exp_pct: filled_i32(row.exp_pct),
        special_amount: filled_i32(row.special_amount),
        ..row
    }
}

} // verus!
