//! What a skill's damage does to NPCs and bots: which of them are immune, and what is left.

use crate::arith::{max_of, tdiv};
use crate::constants::{NATION_ELMORAD, NATION_KARUS, ZONE_JURAID, ZONE_UNDER_CASTLE};
use crate::instance::MagicInstance;
use crate::random::roll;
use crate::skills::{is_under_castle_blocked_skill, under_castle_skill};
use crate::spell::{get_npc_target_resistance, resistance_to, NpcResistances};
use crate::tables::MagicRow;
use crate::victim::{gm_fixed_skill_damage, overridden, TargetHp};
use vstd::prelude::*;

verus! {

/// The kinds of NPCs that the rules tell apart.
#[derive(Clone, Copy, Debug, PartialEq, Eq, Structural)]
pub enum NpcKind {
    Partner,
    Tree,
    Fosil,
    Refugee,
    BorderMonument,
    Prison,
    GuardTower1,
    GuardTower2,
    SoccerBaal,
    Gate,
    Gate2,
    VictoryGate,
    PhoenixGate,
    SpecialGate,
    GateLever,
    ObjectFlag,
    DestroyedArtifact,
    BifrostMonument,
    PvpMonument,
    ClanWarMonument,
    Other,
}

/// An NPC that a skill is aimed at.
#[derive(Clone, Copy, Debug)]
pub struct NpcTarget {
    pub kind: NpcKind,
    pub proto_id: u16,
    pub group: u8,
    pub nation: u8,
    pub zone_id: u16,
    /// Health, where it is known.
    pub hp: Option<i32>,
    pub max_hp: u32,
    /// The nation of a Juraid monument; `None` for any other NPC.
    pub juraid_monument: Option<u8>,
    /// Whether the NPC is part of the Manes survival event.
    pub manes_survival: bool,
}

/// The player who casts at an NPC; `nation` is `None` once they have left.
#[derive(Clone, Copy, Debug)]
pub struct NpcAttacker {
    pub authority: Option<u8>,
    pub nation: Option<u8>,
    pub clan_id: u16,
    pub zone_id: u16,
}

/// The state of the events that decide whether their monuments can be attacked.
#[derive(Clone, Copy, Debug)]
pub struct SiegeState {
    pub castle_siege_active: bool,
    pub castle_siege_war: bool,
    pub castle_master_clan: u16,
    pub beef_active: bool,
    pub beef_monument_dead: bool,
}

/// Kinds that skills never hurt.
pub open spec fn immune_kind(kind: NpcKind) -> bool {
    match kind {
        NpcKind::Tree | NpcKind::Fosil | NpcKind::Refugee | NpcKind::BorderMonument
        | NpcKind::Prison => true,
        NpcKind::GuardTower1 | NpcKind::GuardTower2 | NpcKind::SoccerBaal => true,
        NpcKind::Gate2 | NpcKind::VictoryGate | NpcKind::PhoenixGate | NpcKind::SpecialGate
        | NpcKind::GateLever => true,
        _ => false,
    }
}

/// Whether a kind is one that skills never hurt.
pub fn is_immune_kind(kind: NpcKind) -> (r: bool)
    ensures
        r == immune_kind(kind),
{
    match kind {
        NpcKind::Tree | NpcKind::Fosil | NpcKind::Refugee | NpcKind::BorderMonument
        | NpcKind::Prison => true,
        NpcKind::GuardTower1 | NpcKind::GuardTower2 | NpcKind::SoccerBaal => true,
        NpcKind::Gate2 | NpcKind::VictoryGate | NpcKind::PhoenixGate | NpcKind::SpecialGate
        | NpcKind::GateLever => true,
        _ => false,
    }
}

/// Whether an NPC is a Juraid monument of the caster's own nation. A caster who has left is
/// taken to own it.
pub open spec fn own_juraid_monument(npc: NpcTarget, a: NpcAttacker) -> bool {
    npc.zone_id == ZONE_JURAID && (match npc.juraid_monument {
        Some(owner) => match a.nation {
            Some(n) => n == owner,
            None => true,
        },
        None => false,
    })
}

/// Whether an NPC is a Juraid monument of the caster's own nation.
pub fn is_own_juraid_monument(npc: &NpcTarget, a: &NpcAttacker) -> (r: bool)
    ensures
        r == own_juraid_monument(*npc, *a),
{
    if npc.zone_id != ZONE_JURAID {
        return false;
    }
    match npc.juraid_monument {
        Some(owner) => match a.nation {
            Some(n) => n == owner,
            None => true,
        },
        None => false,
    }
}

/// Whether an NPC belongs to the castle siege: the artifact, or one of the castle's doors.
pub open spec fn siege_target(npc: NpcTarget) -> bool {
    npc.kind == NpcKind::DestroyedArtifact || (npc.kind == NpcKind::Gate && 561 <= npc.proto_id
        <= 563)
}

/// Whether a caster may attack the castle: as a member of a clan that does not hold it, while
/// the war goes on.
pub open spec fn may_besiege(a: NpcAttacker, siege: SiegeState) -> bool {
    a.clan_id != 0 && siege.castle_siege_active && siege.castle_siege_war
        && siege.castle_master_clan != a.clan_id
}

/// Whether an NPC is the war monument of the caster's own nation.
pub open spec fn own_war_monument(npc: NpcTarget, a: NpcAttacker) -> bool {
    (npc.kind == NpcKind::PvpMonument || npc.kind == NpcKind::ClanWarMonument) && ((a.nation
        == Some(NATION_KARUS) && npc.proto_id == 14003) || (a.nation == Some(NATION_ELMORAD)
        && npc.proto_id == 14004))
}

/// Whether a skill does nothing to an NPC.
pub open spec fn immune(npc: NpcTarget, a: NpcAttacker, siege: SiegeState, skill_id: u32) -> bool {
    ||| own_juraid_monument(npc, a)
    ||| npc.kind == NpcKind::Partner && npc.group == 0
    ||| immune_kind(npc.kind)
    ||| npc.kind == NpcKind::ObjectFlag && npc.proto_id == 511
    ||| siege_target(npc) && !may_besiege(a, siege)
    ||| npc.kind == NpcKind::BifrostMonument && (!siege.beef_active || siege.beef_monument_dead)
    ||| own_war_monument(npc, a)
    ||| a.zone_id == ZONE_UNDER_CASTLE && under_castle_skill(skill_id)
    ||| npc.group == 3 || npc.nation == 3
}

/// Whether a skill does nothing to an NPC.
pub fn is_immune(npc: &NpcTarget, a: &NpcAttacker, siege: &SiegeState, skill_id: u32) -> (r: bool)
    ensures
        r == immune(*npc, *a, *siege, skill_id),
{
    if is_own_juraid_monument(npc, a) {
        return true;
    }
    if npc.kind == NpcKind::Partner && npc.group == 0 {
        return true;
    }
    if is_immune_kind(npc.kind) || (npc.kind == NpcKind::ObjectFlag && npc.proto_id == 511) {
        return true;
    }
    let castle_door: bool = npc.kind == NpcKind::Gate && npc.proto_id >= 561 && npc.proto_id
        <= 563;
    if npc.kind == NpcKind::DestroyedArtifact || castle_door {
        if a.clan_id == 0 || !siege.castle_siege_active || !siege.castle_siege_war
            || siege.castle_master_clan == a.clan_id {
            return true;
        }
    }
    if npc.kind == NpcKind::BifrostMonument && (!siege.beef_active || siege.beef_monument_dead) {
        return true;
    }
    if npc.kind == NpcKind::PvpMonument || npc.kind == NpcKind::ClanWarMonument {
        let nation: u8 = a.nation.unwrap_or(0);
        if (nation == NATION_KARUS && npc.proto_id == 14003) || (nation == NATION_ELMORAD
            && npc.proto_id == 14004) {
            return true;
        }
    }
    if a.zone_id == ZONE_UNDER_CASTLE && is_under_castle_blocked_skill(skill_id) {
        return true;
    }
    npc.group == 3 || npc.nation == 3
}

/// What a skill's damage does to an NPC.
#[derive(Clone, Copy, Debug)]
pub enum NpcDamage {
    /// Nothing at all: the NPC is immune, dead or gone.
    Nothing,
    /// The effect is shown and nothing happens.
    Shown,
    Dealt(NpcWound),
}

/// Damage that an NPC has taken.
#[derive(Clone, Copy, Debug)]
pub struct NpcWound {
    pub damage: i16,
    pub hp: i32,
    pub dies: bool,
    /// Whether the caster's weapon wears out by the damage.
    pub wears_weapon: bool,
    /// What is shown of the cast.
    pub effect: MagicInstance,
    /// What the caster sees of the NPC's health.
    pub bar: TargetHp,
}

/// The cast as it is shown: in the Manes survival event a spell shows its damage.
pub open spec fn shown_effect(
    m: MagicInstance,
    npc: NpcTarget,
    skill: MagicRow,
    damage: i16,
    shown: MagicInstance,
) -> bool {
    &&& shown.opcode == m.opcode
    &&& shown.skill_id == m.skill_id
    &&& shown.caster_id == m.caster_id
    &&& shown.target_id == m.target_id
    &&& shown.data@ == if npc.manes_survival && skill.type1 == Some(3i16) {
        m.data@.update(3, (-damage) as i32)
    } else {
        m.data@
    }
}

/// Whether a wound is the one that `dealt` points of damage make.
pub open spec fn is_npc_wound(
    w: NpcWound,
    npc_id: u32,
    npc: NpcTarget,
    hp: i32,
    m: MagicInstance,
    skill: MagicRow,
    dealt: i16,
) -> bool {
    &&& w.damage == dealt
    &&& w.hp == max_of(hp - dealt, 0)
    &&& w.dies == (w.hp <= 0)
    &&& w.wears_weapon == !npc.manes_survival
    &&& shown_effect(m, npc, skill, dealt, w.effect)
    &&& w.bar == (TargetHp {
        target_id: npc_id,
        max_hp: npc.max_hp,
        hp: w.hp as u32,
        amount: (-dealt) as i32,
    })
}

/// Whether an outcome is what a skill's damage does to an NPC: nothing where it is immune or
/// dead, an effect that is shown where there is no damage, and else a wound.
pub open spec fn is_npc_damage(
    r: NpcDamage,
    npc_id: u32,
    npc: NpcTarget,
    attacker: NpcAttacker,
    siege: SiegeState,
    m: MagicInstance,
    skill: MagicRow,
    known: Option<MagicRow>,
    damage: i16,
) -> bool {
    let safe = immune(npc, attacker, siege, m.skill_id) || npc.hp is None || npc.hp->0 <= 0;
    let dealt = overridden(attacker.authority, known, damage);
    match r {
        NpcDamage::Nothing => safe,
        NpcDamage::Shown => !safe && dealt <= 0,
        NpcDamage::Dealt(w) => !safe && dealt > 0 && is_npc_wound(
            w,
            npc_id,
            npc,
            npc.hp->0,
            m,
            skill,
            dealt,
        ),
    }
}

/// Work out what a skill's damage does to an NPC. `known` is the skill by its number, which
/// decides on the game master's override.
pub fn apply_skill_damage_to_npc(
    npc_id: u32,
    npc: &NpcTarget,
    attacker: &NpcAttacker,
    siege: &SiegeState,
    m: &MagicInstance,
    skill: &MagicRow,
    known: &Option<MagicRow>,
    damage: i16,
) -> (r: NpcDamage)
    ensures
        is_npc_damage(r, npc_id, *npc, *attacker, *siege, *m, *skill, *known, damage),
{
    if is_immune(npc, attacker, siege, m.skill_id) {
        return NpcDamage::Nothing;
    }
    let hp: i32 = npc.hp.unwrap_or(0);
    if hp <= 0 {
        return NpcDamage::Nothing;
    }
    let dealt: i16 = gm_fixed_skill_damage(attacker.authority, known, damage);
    if dealt <= 0 {
        return NpcDamage::Shown;
    }
    let left: i32 = (hp - dealt as i32).max(0);
    let mut effect: MagicInstance = *m;
    if npc.manes_survival && skill.type1.unwrap_or(0) == 3 {
        effect.data[3] = -(dealt as i32);
    }
    NpcDamage::Dealt(
        NpcWound {
            damage: dealt,
            hp: left,
            dies: left <= 0,
            wears_weapon: !npc.manes_survival,
            effect,
            bar: TargetHp {
                target_id: npc_id,
                max_hp: npc.max_hp,
                hp: left as u32,
                amount: -(dealt as i32),
            },
        },
    )
}

/// A bot that a skill is aimed at.
#[derive(Clone, Copy, Debug)]
pub struct BotTarget {
    pub hp: i16,
    pub max_hp: i16,
    pub dead: bool,
}

/// Damage that a bot has taken.
#[derive(Clone, Copy, Debug, PartialEq, Eq, Structural)]
pub struct BotWound {
    pub hp: i16,
    pub dies: bool,
    pub bar: TargetHp,
}

/// What a skill's damage does to a bot; nothing where it is dead.
pub open spec fn bot_damage(
    bot_id: u32,
    bot: BotTarget,
    caster_authority: Option<u8>,
    known: Option<MagicRow>,
    damage: i16,
) -> Option<BotWound> {
    let dealt = overridden(caster_authority, known, damage);
    let hp = max_of(bot.hp - dealt, 0) as i16;
    if bot.hp <= 0 || bot.dead {
        None
    } else {
        Some(
            BotWound {
                hp,
                dies: hp <= 0,
                bar: TargetHp {
                    target_id: bot_id,
                    max_hp: bot.max_hp as u32,
                    hp: hp as u32,
                    amount: (-dealt) as i32,
                },
            },
        )
    }
}

/// Work out what a skill's damage does to a bot.
pub fn apply_skill_damage_to_bot(
    bot_id: u32,
    bot: &BotTarget,
    caster_authority: Option<u8>,
    known: &Option<MagicRow>,
    damage: i16,
) -> (r: Option<BotWound>)
    requires
        bot.hp - overridden(caster_authority, *known, damage) <= i16::MAX,
    ensures
        r == bot_damage(bot_id, *bot, caster_authority, *known, damage),
{
    if bot.hp <= 0 || bot.dead {
        return None;
    }
    let dealt: i16 = gm_fixed_skill_damage(caster_authority, known, damage);
    let left: i16 = (bot.hp as i32 - dealt as i32).max(0) as i16;
    Some(
        BotWound {
            hp: left,
            dies: left <= 0,
            bar: TargetHp {
                target_id: bot_id,
                max_hp: bot.max_hp as u32,
                hp: left as u32,
                amount: -(dealt as i32),
            },
        },
    )
}

/// A unit that is no player: a bot, an NPC, or neither where it is gone.
#[derive(Clone, Copy, Debug)]
pub struct Unit {
    pub bot: Option<BotTarget>,
    pub npc: Option<NpcTarget>,
    /// The damage as the survival event scales it, where it does.
    pub scaled_damage: Option<i16>,
}

/// Whether a bot's health stays within 16 bits.
pub open spec fn unit_fits(
    unit: Unit,
    attacker: NpcAttacker,
    known: Option<MagicRow>,
    damage: i16,
) -> bool {
    unit.bot is Some ==> unit.bot->0.hp - overridden(attacker.authority, known, damage)
        <= i16::MAX
}

/// What a skill's damage does to a unit.
#[derive(Clone, Copy, Debug)]
pub enum UnitDamage {
    Bot(Option<BotWound>),
    Npc(NpcDamage),
}

/// The damage that reaches an NPC.
pub open spec fn unit_damage(unit: Unit, damage: i16) -> i16 {
    match unit.scaled_damage {
        Some(d) => d,
        None => damage,
    }
}

/// Whether an outcome is what a skill's damage does to a unit. Bots come first; nothing happens
/// to a unit that is gone.
pub open spec fn is_unit_damage(
    r: UnitDamage,
    id: u32,
    unit: Unit,
    attacker: NpcAttacker,
    siege: SiegeState,
    m: MagicInstance,
    skill: MagicRow,
    known: Option<MagicRow>,
    damage: i16,
) -> bool {
    match (unit.bot, r) {
        (Some(bot), UnitDamage::Bot(w)) => w == bot_damage(
            id,
            bot,
            attacker.authority,
            known,
            damage,
        ),
        (None, UnitDamage::Npc(d)) => match unit.npc {
            Some(npc) => is_npc_damage(
                d,
                id,
                npc,
                attacker,
                siege,
                m,
                skill,
                known,
                unit_damage(unit, damage),
            ),
            None => d is Nothing,
        },
        _ => false,
    }
}

/// Work out what a skill's damage does to a unit.
pub fn damage_unit(
    id: u32,
    unit: &Unit,
    attacker: &NpcAttacker,
    siege: &SiegeState,
    m: &MagicInstance,
    skill: &MagicRow,
    known: &Option<MagicRow>,
    damage: i16,
) -> (r: UnitDamage)
    requires
        unit_fits(*unit, *attacker, *known, damage),
    ensures
        is_unit_damage(r, id, *unit, *attacker, *siege, *m, *skill, *known, damage),
{
    match unit.bot {
        Some(bot) => {
            return UnitDamage::Bot(
                apply_skill_damage_to_bot(id, &bot, attacker.authority, known, damage),
            );
        },
        None => {},
    }
    let reaching: i16 = match unit.scaled_damage {
        Some(d) => d,
        None => damage,
    };
    match unit.npc {
        Some(npc) => UnitDamage::Npc(
            apply_skill_damage_to_npc(id, &npc, attacker, siege, m, skill, known, reaching),
        ),
        None => UnitDamage::Npc(NpcDamage::Nothing),
    }
}

/// The chance, in percent, that an NPC with a resistance faints: 50 without resistance, half a
/// point less for each point of it.
pub open spec fn faint_chance(resistance: i16) -> int {
    tdiv(100 - resistance, 2)
}

/// Whether an NPC faints for a roll of 1 to 100. `fainting` says whether it has fainted
/// already, and is `None` for an NPC that does not act.
pub open spec fn faints(
    fainting: Option<bool>,
    resistances: NpcResistances,
    attribute: u8,
    roll: i32,
) -> bool {
    fainting == Some(false) && (match resistance_to(resistances, attribute) {
        Some(resistance) => faint_chance(resistance) > 0 && roll < faint_chance(resistance),
        None => false,
    })
}

/// Whether an NPC faints for a given roll.
pub fn decide_faint(
    fainting: Option<bool>,
    resistances: &NpcResistances,
    attribute: u8,
    roll: i32,
) -> (r: bool)
    ensures
        r == faints(fainting, *resistances, attribute, roll),
{
    match fainting {
        Some(true) | None => {
            return false;
        },
        Some(false) => {},
    }
    match get_npc_target_resistance(&Some(*resistances), attribute) {
        Some(resistance) => {
            let chance: i32 = (100 - resistance as i32) / 2;
            chance > 0 && roll < chance
        },
        None => false,
    }
}

/// Roll whether an NPC faints from elemental damage.
pub fn try_elemental_faint(
    fainting: Option<bool>,
    resistances: &NpcResistances,
    attribute: u8,
) -> (r: bool)
    ensures
        exists|x: i32|
            1 <= x <= 100 && r == #[trigger] faints(fainting, *resistances, attribute, x),
{
    let x: i32 = roll(1, 100);
    decide_faint(fainting, resistances, attribute, x)
}

/// An NPC that has fainted, or that resists its element by 98 points or more, does not faint.
pub proof fn law_faint_limits(
    fainting: Option<bool>,
    resistances: NpcResistances,
    attribute: u8,
    roll: i32,
)
    requires
        1 <= roll <= 100,
        fainting == Some(true) || (match resistance_to(resistances, attribute) {
            Some(r) => r >= 98,
            None => true,
        }),
    ensures
        !faints(fainting, resistances, attribute, roll),
{
}

/// Higher resistance never makes fainting more likely.
pub proof fn law_resistance_prevents_faints(low: i16, high: i16)
    requires
        low <= high,
    ensures
        faint_chance(high) <= faint_chance(low),
{
    crate::arith::lemma_tdiv_monotone(100 - high, 100 - low, 2);
}

/// A clan never damages the castle that it holds, and nobody does outside of the war.
pub proof fn law_castle_is_safe(
    npc: NpcTarget,
    a: NpcAttacker,
    siege: SiegeState,
    skill_id: u32,
)
    requires
        siege_target(npc),
        a.clan_id == siege.castle_master_clan || !siege.castle_siege_war || a.clan_id == 0,
    ensures
        immune(npc, a, siege, skill_id),
{
}

/// Nobody damages the monument of their own nation.
pub proof fn law_own_monuments_are_safe(
    npc: NpcTarget,
    a: NpcAttacker,
    siege: SiegeState,
    skill_id: u32,
)
    requires
        own_juraid_monument(npc, a) || own_war_monument(npc, a),
    ensures
        immune(npc, a, siege, skill_id),
{
}

/// Damage never heals an NPC, and kills exactly where no health is left.
pub proof fn law_npc_hits_never_heal(
    w: NpcWound,
    npc_id: u32,
    npc: NpcTarget,
    hp: i32,
    m: MagicInstance,
    skill: MagicRow,
    dealt: i16,
)
    requires
        hp > 0,
        dealt > 0,
        is_npc_wound(w, npc_id, npc, hp, m, skill, dealt),
    ensures
        0 <= w.hp < hp,
        w.dies == (hp <= dealt),
        hp - w.hp <= dealt,
{
}

/// The kinds that skills hurt: gates that are not of a special kind, flags, artifacts,
/// monuments of the wars and of Bifrost, partners, and all that the rules do not tell apart.
pub proof fn law_kinds_that_skills_hurt(kind: NpcKind)
    ensures
        !immune_kind(kind) <==> {
            ||| kind is Other || kind is Partner || kind is Gate || kind is ObjectFlag
            ||| kind is DestroyedArtifact || kind is BifrostMonument
            ||| kind is PvpMonument || kind is ClanWarMonument
        },
{
}

/// Which NPCs of the kinds that can be hurt are safe all the same: friendly partners, the flag
/// 511, the castle but for a clan at war with it, Bifrost's monument outside of its event, the
/// caster's own monuments, and the groups and nations of nobody. In the Under Castle some
/// skills hurt nothing.
pub proof fn law_who_is_safe(npc: NpcTarget, a: NpcAttacker, siege: SiegeState, skill_id: u32)
    requires
        !immune_kind(npc.kind),
    ensures
        ({
            let castle = npc.kind is DestroyedArtifact || (npc.kind is Gate && (npc.proto_id == 561
                || npc.proto_id == 562 || npc.proto_id == 563));
            let besieger = siege.castle_siege_active && siege.castle_siege_war && a.clan_id != 0
                && a.clan_id != siege.castle_master_clan;
            let own_juraid = npc.zone_id == 87 && npc.juraid_monument is Some && (a.nation is None
                || a.nation == npc.juraid_monument);
            let own_war = (npc.kind is PvpMonument || npc.kind is ClanWarMonument) && (a.nation
                == Some(1u8) && npc.proto_id == 14003 || a.nation == Some(2u8) && npc.proto_id
                == 14004);
            immune(npc, a, siege, skill_id) <==> {
                ||| npc.kind is Partner && npc.group == 0
                ||| npc.kind is ObjectFlag && npc.proto_id == 511
                ||| castle && !besieger
                ||| npc.kind is BifrostMonument && !(siege.beef_active
                    && !siege.beef_monument_dead)
                ||| own_juraid
                ||| own_war
                ||| a.zone_id == 86 && under_castle_skill(skill_id)
                ||| npc.group == 3
                ||| npc.nation == 3
            }
        }),
{
}

/// What a hit leaves of an NPC: its health less the damage, down to nothing. A game master's
/// skill does 30000 unless it is a spell. The caster sees the NPC's own bar with the damage as a
/// loss; the weapon wears out but in the survival event, where alone a spell shows its damage.
pub proof fn law_npcs_take_their_damage(
    r: NpcDamage,
    npc_id: u32,
    npc: NpcTarget,
    attacker: NpcAttacker,
    siege: SiegeState,
    m: MagicInstance,
    skill: MagicRow,
    known: Option<MagicRow>,
    damage: i16,
)
    requires
        is_npc_damage(r, npc_id, npc, attacker, siege, m, skill, known, damage),
    ensures
        ({
            let spell = known is Some && (known->0.type1 == Some(3i16) || known->0.type2 == Some(
                3i16,
            ));
            let dealt = if attacker.authority == Some(0u8) && !spell {
                30000
            } else {
                damage as int
            };
            let out = immune(npc, attacker, siege, m.skill_id) || npc.hp is None || npc.hp->0 <= 0;
            match r {
                NpcDamage::Nothing => out,
                NpcDamage::Shown => !out && dealt <= 0,
                NpcDamage::Dealt(w) => {
                    &&& !out
                    &&& dealt > 0
                    &&& w.damage == dealt
                    &&& npc.hp->0 > dealt ==> w.hp == npc.hp->0 - dealt && !w.dies
                    &&& npc.hp->0 <= dealt ==> w.hp == 0 && w.dies
                    &&& w.bar.target_id == npc_id
                    &&& w.bar.max_hp == npc.max_hp
                    &&& w.bar.hp == w.hp
                    &&& w.bar.amount == -dealt
                    &&& w.wears_weapon == !npc.manes_survival
                    &&& w.effect.skill_id == m.skill_id
                    &&& w.effect.caster_id == m.caster_id
                    &&& w.effect.target_id == m.target_id
                    &&& w.effect.opcode == m.opcode
                    &&& npc.manes_survival && skill.type1 == Some(3i16) ==> w.effect.data@[3]
                        == -dealt
                    &&& !(npc.manes_survival && skill.type1 == Some(3i16)) ==> w.effect.data@
                        == m.data@
                    &&& forall|i: int|
                        0 <= i < 7 && i != 3 ==> #[trigger] w.effect.data@[i] == m.data@[i]
                },
            }
        }),
{
}

/// What a hit leaves of a bot: its health less the damage, down to nothing; a dead one is left
/// alone. A game master's skill does 30000 unless it is a spell, and the bar is the bot's own.
pub proof fn law_bots_take_their_damage(
    bot_id: u32,
    bot: BotTarget,
    authority: Option<u8>,
    known: Option<MagicRow>,
    damage: i16,
)
    requires
        damage >= 0,
        bot.max_hp >= 0,
    ensures
        ({
            let spell = known is Some && (known->0.type1 == Some(3i16) || known->0.type2 == Some(
                3i16,
            ));
            let dealt = if authority == Some(0u8) && !spell {
                30000
            } else {
                damage as int
            };
            match bot_damage(bot_id, bot, authority, known, damage) {
                Some(w) => {
                    &&& bot.hp > 0 && !bot.dead
                    &&& bot.hp > dealt ==> w.hp == bot.hp - dealt && !w.dies
                    &&& bot.hp <= dealt ==> w.hp == 0 && w.dies
                    &&& w.bar.target_id == bot_id
                    &&& w.bar.max_hp == bot.max_hp
                    &&& w.bar.hp == w.hp
                    &&& w.bar.amount == -dealt
                },
                None => bot.hp <= 0 || bot.dead,
            }
        }),
{
}

/// A unit is a bot before it is an NPC. The survival event's damage counts for NPCs in place of
/// the skill's, and never for bots; a unit that is neither takes nothing.
pub proof fn law_units_are_bots_first(
    r: UnitDamage,
    id: u32,
    unit: Unit,
    attacker: NpcAttacker,
    siege: SiegeState,
    m: MagicInstance,
    skill: MagicRow,
    known: Option<MagicRow>,
    damage: i16,
)
    requires
        is_unit_damage(r, id, unit, attacker, siege, m, skill, known, damage),
    ensures
        unit.bot is Some ==> r == UnitDamage::Bot(
            bot_damage(id, unit.bot->0, attacker.authority, known, damage),
        ),
        unit.bot is None ==> r is Npc,
        unit.bot is None && unit.npc is None ==> r->Npc_0 is Nothing,
        unit.bot is None && unit.npc is Some && unit.scaled_damage is None ==> is_npc_damage(
            r->Npc_0,
            id,
            unit.npc->0,
            attacker,
            siege,
            m,
            skill,
            known,
            damage,
        ),
        unit.bot is None && unit.npc is Some && unit.scaled_damage is Some ==> is_npc_damage(
            r->Npc_0,
            id,
            unit.npc->0,
            attacker,
            siege,
            m,
            skill,
            known,
            unit.scaled_damage->0,
        ),
{
}

/// Who faints: an NPC that acts and has not fainted, hit by an element, for rolls below half of
/// what its resistance to that element leaves of a hundred.
pub proof fn law_who_faints(
    fainting: Option<bool>,
    r: NpcResistances,
    attribute: u8,
    roll: i32,
)
    requires
        roll >= 1,
    ensures
        ({
            let resistance = if attribute == 1 {
                r.fire_r
            } else if attribute == 2 {
                r.cold_r
            } else if attribute == 3 {
                r.lightning_r
            } else if attribute == 4 {
                r.magic_r
            } else if attribute == 5 {
                r.disease_r
            } else {
                r.poison_r
            };
            faints(fainting, r, attribute, roll) <==> {
                &&& fainting is Some
                &&& !fainting->0
                &&& 1 <= attribute <= 6
                &&& 2 * roll + 2 <= 100 - resistance
            }
        }),
{
}

} // verus!
