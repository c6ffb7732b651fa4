//! Spells on an area: who is hit or healed, and what happens to each of them.

use crate::arith::{max_of, or_i32};
use crate::cast::{dead, is_dead};
use crate::constants::{AUTHORITY_GM, MORAL_AREA_ALL, MORAL_AREA_ENEMY, MORAL_AREA_FRIEND};
use crate::npc_damage::{
    apply_skill_damage_to_bot, bot_damage, is_own_juraid_monument, own_juraid_monument, BotTarget,
    BotWound, NpcAttacker,
};
use crate::physical::{get_reaching_damage, reaching_damage, AreaNpc, AreaNpcHit};
use crate::skills::{is_mage_class, mage_class};
use crate::spell::{
    apply_magic_class_bonus, class_damage, plain_damage, row_damage, use_magic_formula,
    uses_formula,
};
use crate::spell_cast::{
    damage_over_time, get_heal_amount, heal_amount, heal_hp, heal_over_time, healed_hp, hot_fits,
    npc_spell, npc_spell_damage, plan_damage_over_time, plan_heal_over_time, Durational,
    HealTarget,
};
use crate::tables::{MagicRow, MagicType3Row};
use crate::victim::{gm_fixed_skill_damage, overridden};
use vstd::prelude::*;

verus! {

/// The caster of a spell on an area.
#[derive(Clone, Copy, Debug)]
pub struct AreaSpell {
    pub moral: i16,
    pub skill_id: u32,
    pub authority: Option<u8>,
    pub class: u16,
    pub nation: u8,
    pub zone_id: u16,
    /// Whether the caster's genie fights for them.
    pub genie_active: bool,
    /// Whether the caster stands in a safety area of the enemy.
    pub in_enemy_safety: bool,
}

/// A player near the caster of a spell on an area.
#[derive(Clone, Copy, Debug)]
pub struct SpellAreaPlayer {
    pub sid: u16,
    pub res_hp_type: u8,
    pub hp: i16,
    pub max_hp: i16,
    pub authority: u8,
    pub nation: u8,
    pub undead: bool,
    pub blinking: bool,
    pub blocks_magic: bool,
    /// Whether the player stands within the spell's radius. A spell without a radius reaches
    /// everyone near.
    pub in_radius: bool,
    pub hostile: bool,
    /// Whether caster and player both stand where fighting is always allowed.
    pub both_in_special_zone: bool,
    pub in_own_safety: bool,
    /// Whether the player's combat stats are known.
    pub stats_known: bool,
    /// What the damage formula gives for the direct damage and for the damage over time.
    pub formula_damage: i16,
    pub formula_time_damage: i16,
    /// The class factor between caster and player, and the direct damage at that factor.
    pub class_factor: Option<i32>,
    pub class_scaled: i32,
    pub magic_damage_reduction: u8,
}

/// Whether a mage's genie casts, which keeps area attacks from other players.
pub open spec fn genie_area(s: AreaSpell) -> bool {
    s.moral == MORAL_AREA_ENEMY && mage_class(s.class) && s.genie_active
}

/// Whether a mage's genie casts.
pub fn is_genie_area(s: &AreaSpell) -> (r: bool)
    ensures
        r == genie_area(*s),
{
    s.moral == MORAL_AREA_ENEMY && is_mage_class(s.class) && s.genie_active
}

/// Whether a spell on an area reaches a player.
pub open spec fn area_reaches(s: AreaSpell, p: SpellAreaPlayer) -> bool {
    &&& !dead(p.res_hp_type, p.hp)
    &&& s.moral == MORAL_AREA_ENEMY ==> p.authority != AUTHORITY_GM
    &&& !p.blinking
    &&& p.in_radius
    &&& s.moral == MORAL_AREA_ENEMY ==> p.hostile
    &&& s.moral == MORAL_AREA_FRIEND ==> !p.hostile
    &&& s.moral == MORAL_AREA_ALL ==> p.both_in_special_zone || !s.in_enemy_safety
        || !p.in_own_safety
    &&& !genie_area(s)
    &&& s.moral != MORAL_AREA_FRIEND ==> !p.blocks_magic
}

/// Check whether a spell on an area reaches a player.
pub fn reaches(s: &AreaSpell, p: &SpellAreaPlayer) -> (r: bool)
    ensures
        r == area_reaches(*s, *p),
{
    if is_dead(p.res_hp_type, p.hp) || p.blinking || !p.in_radius {
        return false;
    }
    if s.moral == MORAL_AREA_ENEMY && (p.authority == AUTHORITY_GM || !p.hostile) {
        return false;
    }
    if s.moral == MORAL_AREA_FRIEND && p.hostile {
        return false;
    }
    if s.moral == MORAL_AREA_ALL && !p.both_in_special_zone && s.in_enemy_safety
        && p.in_own_safety {
        return false;
    }
    if is_genie_area(s) {
        return false;
    }
    s.moral == MORAL_AREA_FRIEND || !p.blocks_magic
}

/// What a spell on an area does to a player.
#[derive(Clone, Copy, Debug, PartialEq, Eq, Structural)]
pub struct AreaSpellHit {
    pub sid: u16,
    /// Whether this is a heal; it then shows no damage and wears nothing out.
    pub heals: bool,
    pub damage: i32,
    /// New health; `None` where the player's combat stats are not known, which spares them.
    pub hp: Option<i16>,
    pub dies: bool,
    pub ends_stealth: bool,
    pub over_time: Option<Durational>,
}

/// Direct damage of a spell on an area to an NPC, and to a player without the class bonus,
/// before the game master's override.
pub open spec fn area_base_damage(skill_id: u32, row: MagicType3Row, formula: i16) -> i16 {
    let first = or_i32(row.first_damage, 0);
    if uses_formula(first, or_i32(row.direct_type, 0), skill_id) {
        formula
    } else {
        plain_damage(first)
    }
}

/// Work out the direct damage of a spell on an area.
pub fn get_area_base_damage(skill_id: u32, row: &MagicType3Row, formula: i16) -> (r: i16)
    requires
        or_i32(row.first_damage, 0) > i32::MIN,
    ensures
        r == area_base_damage(skill_id, *row, formula),
{
    let first: i32 = row.first_damage.unwrap_or(0);
    if use_magic_formula(first, row.direct_type.unwrap_or(0), skill_id) {
        formula
    } else {
        row_damage(first)
    }
}

/// Direct damage of a spell on an area to a player, before the game master's override: damage
/// by the formula gets the class bonus.
pub open spec fn area_player_damage(skill_id: u32, row: MagicType3Row, p: SpellAreaPlayer) -> i16 {
    area_base_damage(
        skill_id,
        row,
        class_damage(p.formula_damage, p.class_factor, p.class_scaled),
    )
}

/// The player as a heal sees them.
pub open spec fn as_heal_target(p: SpellAreaPlayer) -> HealTarget {
    HealTarget { hp: p.hp, max_hp: p.max_hp, mp: 0, max_mp: 0, undead: p.undead }
}

/// What a spell on an area does to a player, if it reaches them. Stealth ends for players of
/// another nation, also where the hit comes to nothing.
pub open spec fn area_spell_hit(
    s: AreaSpell,
    row: MagicType3Row,
    known: Option<MagicRow>,
    p: SpellAreaPlayer,
) -> Option<AreaSpellHit> {
    let ends_stealth = p.nation != s.nation;
    if !area_reaches(s, p) {
        None
    } else if s.moral == MORAL_AREA_FRIEND {
        let hp = healed_hp(as_heal_target(p), heal_amount(row));
        Some(
            AreaSpellHit {
                sid: p.sid,
                heals: true,
                damage: 0,
                hp: Some(hp),
                dies: p.undead && hp <= 0,
                ends_stealth,
                over_time: heal_over_time(row, p.undead),
            },
        )
    } else if !p.stats_known {
        Some(
            AreaSpellHit {
                sid: p.sid,
                heals: false,
                damage: 0,
                hp: None,
                dies: false,
                ends_stealth,
                over_time: None,
            },
        )
    } else {
        let damage = overridden(
            s.authority,
            known,
            area_player_damage(s.skill_id, row, p),
        );
        let hp = max_of(p.hp - damage, 0) as i16;
        Some(
            AreaSpellHit {
                sid: p.sid,
                heals: false,
                damage: damage as i32,
                hp: Some(hp),
                dies: hp <= 0,
                ends_stealth,
                over_time: damage_over_time(
                    row,
                    s.zone_id,
                    p.formula_time_damage,
                    p.magic_damage_reduction,
                ),
            },
        )
    }
}

/// Whether the damage of a spell's row can be worked out in its type.
pub open spec fn harm_fits(row: MagicType3Row) -> bool {
    &&& or_i32(row.first_damage, 0) > i32::MIN
    &&& or_i32(row.time_damage, 0) > i32::MIN
}

/// Whether what a spell on an area does can be worked out: its heal for friends, its damage
/// for others.
pub open spec fn area_row_fits(moral: i16, row: MagicType3Row) -> bool {
    if moral == MORAL_AREA_FRIEND {
        hot_fits(row)
    } else {
        harm_fits(row)
    }
}

/// Work out what a spell on an area does to a player.
pub fn hit_player(
    s: &AreaSpell,
    row: &MagicType3Row,
    known: &Option<MagicRow>,
    p: &SpellAreaPlayer,
) -> (r: Option<AreaSpellHit>)
    requires
        area_row_fits(s.moral, *row),
    ensures
        r == area_spell_hit(*s, *row, *known, *p),
{
    if !reaches(s, p) {
        return None;
    }
    let ends_stealth: bool = p.nation != s.nation;
    if s.moral == MORAL_AREA_FRIEND {
        let target: HealTarget = HealTarget {
            hp: p.hp,
            max_hp: p.max_hp,
            mp: 0,
            max_mp: 0,
            undead: p.undead,
        };
        let hp: i16 = heal_hp(&target, get_heal_amount(row));
        return Some(
            AreaSpellHit {
                sid: p.sid,
                heals: true,
                damage: 0,
                hp: Some(hp),
                dies: p.undead && hp <= 0,
                ends_stealth,
                over_time: plan_heal_over_time(row, p.undead),
            },
        );
    }
    if !p.stats_known {
        return Some(
            AreaSpellHit {
                sid: p.sid,
                heals: false,
                damage: 0,
                hp: None,
                dies: false,
                ends_stealth,
                over_time: None,
            },
        );
    }
    let formula: i16 = apply_magic_class_bonus(p.formula_damage, p.class_factor, p.class_scaled);
    let base: i16 = get_area_base_damage(s.skill_id, row, formula);
    let damage: i16 = gm_fixed_skill_damage(s.authority, known, base);
    let hp: i16 = (p.hp as i32 - damage as i32).max(0) as i16;
    Some(
        AreaSpellHit {
            sid: p.sid,
            heals: false,
            damage: damage as i32,
            hp: Some(hp),
            dies: hp <= 0,
            ends_stealth,
            over_time: plan_damage_over_time(
                row,
                s.zone_id,
                p.formula_time_damage,
                p.magic_damage_reduction,
            ),
        },
    )
}

/// What a spell on an area does to the players near, in order.
pub open spec fn area_spell_hits(
    s: AreaSpell,
    row: MagicType3Row,
    known: Option<MagicRow>,
    players: Seq<SpellAreaPlayer>,
) -> Seq<AreaSpellHit>
    decreases players.len(),
{
    if players.len() == 0 {
        Seq::empty()
    } else {
        let rest = area_spell_hits(s, row, known, players.drop_last());
        match area_spell_hit(s, row, known, players.last()) {
            Some(h) => rest.push(h),
            None => rest,
        }
    }
}

/// Work out what a spell on an area does to the players near.
pub fn hit_players(
    s: &AreaSpell,
    row: &MagicType3Row,
    known: &Option<MagicRow>,
    players: &Vec<SpellAreaPlayer>,
) -> (r: Vec<AreaSpellHit>)
    requires
        area_row_fits(s.moral, *row),
    ensures
        r@ == area_spell_hits(*s, *row, *known, players@),
{
    let mut hits: Vec<AreaSpellHit> = Vec::new();
    let mut i: usize = 0;
    while i < players.len()
        invariant
            area_row_fits(s.moral, *row),
            i <= players.len(),
            hits@ == area_spell_hits(*s, *row, *known, players@.take(i as int)),
        decreases players.len() - i,
    {
        assert(players@.take(i + 1).drop_last() =~= players@.take(i as int));
        match hit_player(s, row, known, &players[i]) {
            Some(h) => {
                hits.push(h);
            },
            None => {},
        }
        i += 1;
    }
    assert(players@.take(players@.len() as int) =~= players@);
    hits
}

/// What a friendly spell on an area does to its living caster: the others' heal, too.
pub open spec fn area_caster_heal(
    s: AreaSpell,
    row: MagicType3Row,
    caster_sid: u16,
    caster: HealTarget,
    res_hp_type: u8,
) -> Option<AreaSpellHit> {
    if s.moral == MORAL_AREA_FRIEND && !dead(res_hp_type, caster.hp) {
        let hp = healed_hp(caster, heal_amount(row));
        Some(
            AreaSpellHit {
                sid: caster_sid,
                heals: true,
                damage: 0,
                hp: Some(hp),
                dies: caster.undead && hp <= 0,
                ends_stealth: false,
                over_time: heal_over_time(row, caster.undead),
            },
        )
    } else {
        None
    }
}

/// Work out what a friendly spell on an area does to its caster.
pub fn heal_area_caster(
    s: &AreaSpell,
    row: &MagicType3Row,
    caster_sid: u16,
    caster: &HealTarget,
    res_hp_type: u8,
) -> (r: Option<AreaSpellHit>)
    requires
        area_row_fits(s.moral, *row),
    ensures
        r == area_caster_heal(*s, *row, caster_sid, *caster, res_hp_type),
{
    if s.moral != MORAL_AREA_FRIEND || is_dead(res_hp_type, caster.hp) {
        return None;
    }
    let hp: i16 = heal_hp(caster, get_heal_amount(row));
    Some(
        AreaSpellHit {
            sid: caster_sid,
            heals: true,
            damage: 0,
            hp: Some(hp),
            dies: caster.undead && hp <= 0,
            ends_stealth: false,
            over_time: plan_heal_over_time(row, caster.undead),
        },
    )
}

/// Whether a spell on an area reaches a bot: living bots of another nation within the radius,
/// unless a genie casts.
pub fn reaches_bot(s: &AreaSpell, alive: bool, nation: u8, in_radius: bool) -> (r: bool)
    ensures
        r == (s.moral == MORAL_AREA_ENEMY && !genie_area(*s) && alive && nation != s.nation
            && in_radius),
{
    s.moral == MORAL_AREA_ENEMY && !is_genie_area(s) && alive && nation != s.nation && in_radius
}

/// A bot near the caster of a spell on an area.
#[derive(Clone, Copy, Debug)]
pub struct AreaBot {
    pub id: u32,
    pub bot: BotTarget,
    pub alive: bool,
    pub nation: u8,
    pub in_radius: bool,
    /// What the damage formula gives for the direct damage and for the damage over time.
    pub formula_damage: i16,
    pub formula_time_damage: i16,
}

/// What a spell on an area does to a bot.
#[derive(Clone, Copy, Debug, PartialEq, Eq, Structural)]
pub struct AreaBotHit {
    pub id: u32,
    pub wound: Option<BotWound>,
    /// Damage over time, for bots that live on.
    pub over_time: Option<Durational>,
}

/// Whether a spell on an area reaches a bot.
pub open spec fn area_reaches_bot(s: AreaSpell, b: AreaBot) -> bool {
    s.moral == MORAL_AREA_ENEMY && !genie_area(s) && b.alive && b.nation != s.nation
        && b.in_radius
}

/// What a spell on an area does to a bot, if it reaches it.
pub open spec fn area_bot_hit(
    s: AreaSpell,
    row: MagicType3Row,
    known: Option<MagicRow>,
    b: AreaBot,
) -> Option<AreaBotHit> {
    if !area_reaches_bot(s, b) {
        None
    } else {
        let damage = npc_spell(s.skill_id, row, b.formula_damage);
        let wound = bot_damage(b.id, b.bot, s.authority, known, damage);
        Some(
            AreaBotHit {
                id: b.id,
                wound,
                over_time: if wound is Some && wound->0.hp > 0 {
                    damage_over_time(row, s.zone_id, b.formula_time_damage, 100)
                } else {
                    None
                },
            },
        )
    }
}

/// Whether the health of a bot that a spell reaches stays within 16 bits.
pub open spec fn bot_fits(
    s: AreaSpell,
    row: MagicType3Row,
    known: Option<MagicRow>,
    b: AreaBot,
) -> bool {
    area_reaches_bot(s, b) ==> b.bot.hp - overridden(
        s.authority,
        known,
        npc_spell(s.skill_id, row, b.formula_damage),
    ) <= i16::MAX
}

/// Work out what a spell on an area does to a bot.
pub fn hit_bot(s: &AreaSpell, row: &MagicType3Row, known: &Option<MagicRow>, b: &AreaBot) -> (r:
    Option<AreaBotHit>)
    requires
        area_row_fits(s.moral, *row),
        bot_fits(*s, *row, *known, *b),
    ensures
        r == area_bot_hit(*s, *row, *known, *b),
{
    if !reaches_bot(s, b.alive, b.nation, b.in_radius) {
        return None;
    }
    let damage: i16 = npc_spell_damage(s.skill_id, row, b.formula_damage);
    let wound: Option<BotWound> = apply_skill_damage_to_bot(
        b.id,
        &b.bot,
        s.authority,
        known,
        damage,
    );
    let lives: bool = match wound {
        Some(w) => w.hp > 0,
        None => false,
    };
    let over_time: Option<Durational> = if lives {
        plan_damage_over_time(row, s.zone_id, b.formula_time_damage, 100)
    } else {
        None
    };
    Some(AreaBotHit { id: b.id, wound, over_time })
}

/// What a spell on an area does to the bots near, in order.
pub open spec fn area_bot_hits(
    s: AreaSpell,
    row: MagicType3Row,
    known: Option<MagicRow>,
    bots: Seq<AreaBot>,
) -> Seq<AreaBotHit>
    decreases bots.len(),
{
    if bots.len() == 0 {
        Seq::empty()
    } else {
        let rest = area_bot_hits(s, row, known, bots.drop_last());
        match area_bot_hit(s, row, known, bots.last()) {
            Some(h) => rest.push(h),
            None => rest,
        }
    }
}

/// Work out what a spell on an area does to the bots near.
pub fn hit_bots(
    s: &AreaSpell,
    row: &MagicType3Row,
    known: &Option<MagicRow>,
    bots: &Vec<AreaBot>,
) -> (r: Vec<AreaBotHit>)
    requires
        area_row_fits(s.moral, *row),
        forall|i: int| 0 <= i < bots@.len() ==> bot_fits(*s, *row, *known, #[trigger] bots@[i]),
    ensures
        r@ == area_bot_hits(*s, *row, *known, bots@),
{
    let mut hits: Vec<AreaBotHit> = Vec::new();
    let mut i: usize = 0;
    while i < bots.len()
        invariant
            area_row_fits(s.moral, *row),
            forall|i: int|
                0 <= i < bots@.len() ==> bot_fits(*s, *row, *known, #[trigger] bots@[i]),
            i <= bots.len(),
            hits@ == area_bot_hits(*s, *row, *known, bots@.take(i as int)),
        decreases bots.len() - i,
    {
        assert(bots@.take(i + 1).drop_last() =~= bots@.take(i as int));
        match hit_bot(s, row, known, &bots[i]) {
            Some(h) => {
                hits.push(h);
            },
            None => {},
        }
        i += 1;
    }
    assert(bots@.take(bots@.len() as int) =~= bots@);
    hits
}

/// Whether a spell on an area reaches an NPC: only spells at enemies reach NPCs, and of those
/// only living monsters within the radius that are no monument of the caster's own nation.
pub open spec fn area_reaches_npc(s: AreaSpell, attacker: NpcAttacker, n: AreaNpc) -> bool {
    s.moral == MORAL_AREA_ENEMY && !own_juraid_monument(n.npc, attacker) && n.monster
        && n.npc.hp is Some && n.npc.hp->0 > 0 && n.in_reach
}

/// The damage of a spell on an area to an NPC that it reaches. The row's percentage for NPCs
/// does not count here.
pub open spec fn area_npc_spell(
    s: AreaSpell,
    row: MagicType3Row,
    attacker: NpcAttacker,
    known: Option<MagicRow>,
    n: AreaNpc,
) -> i16 {
    overridden(
        attacker.authority,
        known,
        reaching_damage(n, area_base_damage(s.skill_id, row, n.base_damage)),
    )
}

/// What a spell on an area does to an NPC, if it reaches it.
pub open spec fn area_spell_npc_hit(
    s: AreaSpell,
    row: MagicType3Row,
    attacker: NpcAttacker,
    known: Option<MagicRow>,
    n: AreaNpc,
) -> Option<AreaNpcHit> {
    if !area_reaches_npc(s, attacker, n) {
        None
    } else {
        let damage = area_npc_spell(s, row, attacker, known, n);
        let hp = max_of(n.npc.hp->0 - damage, 0) as i32;
        Some(
            AreaNpcHit {
                npc_id: n.npc_id,
                damage,
                hp,
                dies: hp <= 0,
                wears_weapon: !n.npc.manes_survival,
                deferred_death: hp <= 0 && n.npc.manes_survival,
            },
        )
    }
}

/// Whether the health of an NPC that a spell reaches stays within its type.
pub open spec fn npc_fits(
    s: AreaSpell,
    row: MagicType3Row,
    attacker: NpcAttacker,
    known: Option<MagicRow>,
    n: AreaNpc,
) -> bool {
    area_reaches_npc(s, attacker, n) ==> n.npc.hp->0 - area_npc_spell(s, row, attacker, known, n)
        <= i32::MAX
}

/// Work out what a spell on an area does to an NPC.
pub fn hit_npc(
    s: &AreaSpell,
    row: &MagicType3Row,
    attacker: &NpcAttacker,
    known: &Option<MagicRow>,
    n: &AreaNpc,
) -> (r: Option<AreaNpcHit>)
    requires
        area_row_fits(s.moral, *row),
        npc_fits(*s, *row, *attacker, *known, *n),
    ensures
        r == area_spell_npc_hit(*s, *row, *attacker, *known, *n),
{
    if s.moral != MORAL_AREA_ENEMY || is_own_juraid_monument(&n.npc, attacker) || !n.monster
        || !n.in_reach {
        return None;
    }
    let hp: i32 = n.npc.hp.unwrap_or(0);
    if hp <= 0 {
        return None;
    }
    let plain: i16 = get_area_base_damage(s.skill_id, row, n.base_damage);
    let reaching: i16 = get_reaching_damage(n, plain);
    let damage: i16 = gm_fixed_skill_damage(attacker.authority, known, reaching);
    let left: i32 = (hp - damage as i32).max(0);
    Some(
        AreaNpcHit {
            npc_id: n.npc_id,
            damage,
            hp: left,
            dies: left <= 0,
            wears_weapon: !n.npc.manes_survival,
            deferred_death: left <= 0 && n.npc.manes_survival,
        },
    )
}

/// What a spell on an area does to the NPCs near, in order.
pub open spec fn area_spell_npc_hits(
    s: AreaSpell,
    row: MagicType3Row,
    attacker: NpcAttacker,
    known: Option<MagicRow>,
    npcs: Seq<AreaNpc>,
) -> Seq<AreaNpcHit>
    decreases npcs.len(),
{
    if npcs.len() == 0 {
        Seq::empty()
    } else {
        let rest = area_spell_npc_hits(s, row, attacker, known, npcs.drop_last());
        match area_spell_npc_hit(s, row, attacker, known, npcs.last()) {
            Some(h) => rest.push(h),
            None => rest,
        }
    }
}

/// Work out what a spell on an area does to the NPCs near.
pub fn hit_npcs(
    s: &AreaSpell,
    row: &MagicType3Row,
    attacker: &NpcAttacker,
    known: &Option<MagicRow>,
    npcs: &Vec<AreaNpc>,
) -> (r: Vec<AreaNpcHit>)
    requires
        area_row_fits(s.moral, *row),
        forall|i: int|
            0 <= i < npcs@.len() ==> npc_fits(*s, *row, *attacker, *known, #[trigger] npcs@[i]),
    ensures
        r@ == area_spell_npc_hits(*s, *row, *attacker, *known, npcs@),
{
    let mut hits: Vec<AreaNpcHit> = Vec::new();
    let mut i: usize = 0;
    while i < npcs.len()
        invariant
            area_row_fits(s.moral, *row),
            forall|i: int|
                0 <= i < npcs@.len() ==> npc_fits(
                    *s,
                    *row,
                    *attacker,
                    *known,
                    #[trigger] npcs@[i],
                ),
            i <= npcs.len(),
            hits@ == area_spell_npc_hits(*s, *row, *attacker, *known, npcs@.take(i as int)),
        decreases npcs.len() - i,
    {
        assert(npcs@.take(i + 1).drop_last() =~= npcs@.take(i as int));
        match hit_npc(s, row, attacker, known, &npcs[i]) {
            Some(h) => {
                hits.push(h);
            },
            None => {},
        }
        i += 1;
    }
    assert(npcs@.take(npcs@.len() as int) =~= npcs@);
    hits
}

/// An attack on an area of enemies reaches no player whom the caster may not attack, and no
/// game master; a heal reaches no player whom the caster may attack.
pub proof fn law_areas_tell_friends_from_enemies(s: AreaSpell, p: SpellAreaPlayer)
    requires
        area_reaches(s, p),
    ensures
        s.moral == MORAL_AREA_ENEMY ==> p.hostile && p.authority != AUTHORITY_GM,
        s.moral == MORAL_AREA_FRIEND ==> !p.hostile,
{
}

/// While a mage's genie fights, its area attacks reach no player at all.
pub proof fn law_genies_spare_players(
    s: AreaSpell,
    row: MagicType3Row,
    known: Option<MagicRow>,
    players: Seq<SpellAreaPlayer>,
)
    requires
        genie_area(s),
    ensures
        area_spell_hits(s, row, known, players).len() == 0,
    decreases players.len(),
{
    if players.len() > 0 {
        law_genies_spare_players(s, row, known, players.drop_last());
    }
}

/// A player in a safety area of their own is not hit by an enemy who stands in it too, unless
/// fighting is allowed for both anyway.
pub proof fn law_safety_areas_protect(s: AreaSpell, p: SpellAreaPlayer)
    requires
        s.moral == MORAL_AREA_ALL,
        s.in_enemy_safety,
        p.in_own_safety,
        !p.both_in_special_zone,
    ensures
        !area_reaches(s, p),
{
}

/// Spells on an area that are not aimed at enemies leave NPCs alone.
pub proof fn law_friendly_areas_spare_npcs(
    s: AreaSpell,
    row: MagicType3Row,
    attacker: NpcAttacker,
    known: Option<MagicRow>,
    npcs: Seq<AreaNpc>,
)
    requires
        s.moral != MORAL_AREA_ENEMY,
    ensures
        area_spell_npc_hits(s, row, attacker, known, npcs).len() == 0,
    decreases npcs.len(),
{
    if npcs.len() > 0 {
        law_friendly_areas_spare_npcs(s, row, attacker, known, npcs.drop_last());
    }
}

/// Whom a spell on an area reaches: the living within its radius who do not blink; for an
/// attack (10) those who may be attacked and are no game masters, and nobody where a mage's
/// genie casts; for a help (11) those who may not be attacked; for one on all (12) those whom
/// no safety area keeps from the caster. Only a help reaches those who block magic.
pub proof fn law_whom_area_spells_reach(s: AreaSpell, p: SpellAreaPlayer)
    ensures
        ({
            let open = p.res_hp_type != 3 && p.hp > 0 && !p.blinking && p.in_radius;
            let genie = mage_class(s.class) && s.genie_active;
            let r = area_reaches(s, p);
            &&& !open ==> !r
            &&& open && s.moral == 10 ==> (r <==> p.hostile && p.authority != 0
                && !p.blocks_magic && !genie)
            &&& open && s.moral == 11 ==> (r <==> !p.hostile)
            &&& open && s.moral == 12 ==> (r <==> !p.blocks_magic && !(s.in_enemy_safety
                && p.in_own_safety && !p.both_in_special_zone))
            &&& open && s.moral != 10 && s.moral != 11 && s.moral != 12 ==> (r
                <==> !p.blocks_magic)
            &&& genie_area(s) <==> s.moral == 10 && genie
        }),
{
}

/// What a help on an area does to a friend: it gives them the row's amount, up to their
/// maximum, or takes it from the undead, down to nothing; it does no damage.
pub proof fn law_area_heals_give_their_amount(
    s: AreaSpell,
    row: MagicType3Row,
    known: Option<MagicRow>,
    p: SpellAreaPlayer,
)
    requires
        s.moral == 11,
        area_reaches(s, p),
        0 <= or_i32(row.first_damage, 0) <= 32767,
        0 < p.hp <= p.max_hp,
    ensures
        ({
            let first = or_i32(row.first_damage, 0);
            match area_spell_hit(s, row, known, p) {
                Some(h) => {
                    &&& h.sid == p.sid && h.heals && h.damage == 0 && h.hp is Some
                    &&& !p.undead && p.hp + first <= p.max_hp ==> h.hp->0 - p.hp == first
                    &&& !p.undead && p.hp + first >= p.max_hp ==> h.hp->0 == p.max_hp
                    &&& p.undead && p.hp >= first ==> p.hp - h.hp->0 == first
                    &&& p.undead && p.hp <= first ==> h.hp->0 == 0
                    &&& h.dies <==> p.undead && p.hp <= first
                    &&& h.ends_stealth == (p.nation != s.nation)
                    &&& h.over_time == heal_over_time(row, p.undead)
                },
                None => false,
            }
        }),
{
    crate::spell_cast::law_heals_give_their_amount(row, as_heal_target(p));
}

/// What an attack on an area does to a player: the row's damage or, where it goes by the
/// formula, the formula's with the class bonus, off their health down to nothing. Game masters'
/// skills that are no spells do 30000. Players whose stats are not known are spared.
pub proof fn law_area_attacks_take_their_damage(
    s: AreaSpell,
    row: MagicType3Row,
    known: Option<MagicRow>,
    p: SpellAreaPlayer,
)
    requires
        s.moral != 11,
        area_reaches(s, p),
        -32767 <= or_i32(row.first_damage, 0),
        p.formula_damage >= 0,
        0 <= p.class_scaled <= 32767,
    ensures
        ({
            let first = or_i32(row.first_damage, 0);
            let direct = or_i32(row.direct_type, 0);
            let by_formula = first < 0 && s.skill_id < 400000 && (direct == 1 || direct == 8);
            let bonus = if p.class_scaled == 0 {
                1
            } else {
                p.class_scaled as int
            };
            let master = s.authority == Some(0u8) && !(known is Some && (known->0.type1 == Some(
                3i16,
            ) || known->0.type2 == Some(3i16)));
            let damage = if master {
                30000
            } else if by_formula {
                if p.class_factor is Some {
                    bonus
                } else {
                    p.formula_damage as int
                }
            } else if first < 0 {
                -first
            } else {
                0
            };
            match area_spell_hit(s, row, known, p) {
                Some(h) => {
                    &&& h.sid == p.sid && !h.heals
                    &&& h.ends_stealth == (p.nation != s.nation)
                    &&& !p.stats_known ==> h.hp is None && h.damage == 0 && !h.dies
                        && h.over_time is None
                    &&& p.stats_known ==> {
                        &&& h.damage == damage
                        &&& h.hp is Some
                        &&& p.hp > damage ==> p.hp - h.hp->0 == damage && !h.dies
                        &&& p.hp <= damage ==> h.hp->0 == 0 && h.dies
                        &&& h.over_time == damage_over_time(
                            row,
                            s.zone_id,
                            p.formula_time_damage,
                            p.magic_damage_reduction,
                        )
                    }
                },
                None => false,
            }
        }),
{
    let first = or_i32(row.first_damage, 0);
    crate::spell::law_formula_or_row(first, or_i32(row.direct_type, 0), s.skill_id);
    crate::victim::law_masters_do_a_fixed_amount(
        s.authority,
        known,
        area_player_damage(s.skill_id, row, p),
    );
}

/// What a spell on an area does comes player by player, bot by bot and NPC by NPC, in their
/// order; those whom it does not reach have no part.
pub proof fn law_area_spells_add_up(
    s: AreaSpell,
    row: MagicType3Row,
    attacker: NpcAttacker,
    known: Option<MagicRow>,
    players: Seq<SpellAreaPlayer>,
    p: SpellAreaPlayer,
    bots: Seq<AreaBot>,
    b: AreaBot,
    npcs: Seq<AreaNpc>,
    n: AreaNpc,
)
    ensures
        area_spell_hits(s, row, known, Seq::empty()).len() == 0,
        area_bot_hits(s, row, known, Seq::empty()).len() == 0,
        area_spell_npc_hits(s, row, attacker, known, Seq::empty()).len() == 0,
        area_spell_hits(s, row, known, players.push(p)) == area_spell_hits(s, row, known, players)
            + (match area_spell_hit(s, row, known, p) {
            Some(h) => seq![h],
            None => Seq::empty(),
        }),
        area_bot_hits(s, row, known, bots.push(b)) == area_bot_hits(s, row, known, bots) + (
        match area_bot_hit(s, row, known, b) {
            Some(h) => seq![h],
            None => Seq::empty(),
        }),
        area_spell_npc_hits(s, row, attacker, known, npcs.push(n)) == area_spell_npc_hits(
            s,
            row,
            attacker,
            known,
            npcs,
        ) + (match area_spell_npc_hit(s, row, attacker, known, n) {
            Some(h) => seq![h],
            None => Seq::empty(),
        }),
        area_spell_hit(s, row, known, p) is None <==> !area_reaches(s, p),
{
    assert(players.push(p).drop_last() =~= players);
    assert(bots.push(b).drop_last() =~= bots);
    assert(npcs.push(n).drop_last() =~= npcs);
}

/// A help on an area gives its living caster the row's amount, too, as it does a friend; no
/// other spell does anything to its caster.
pub proof fn law_area_heals_reach_their_caster(
    s: AreaSpell,
    row: MagicType3Row,
    caster_sid: u16,
    caster: HealTarget,
    posture: u8,
)
    requires
        0 <= or_i32(row.first_damage, 0) <= 32767,
        0 <= caster.hp <= caster.max_hp,
    ensures
        ({
            let first = or_i32(row.first_damage, 0);
            match area_caster_heal(s, row, caster_sid, caster, posture) {
                Some(h) => {
                    &&& s.moral == 11 && posture != 3 && caster.hp > 0
                    &&& h.sid == caster_sid && h.heals && h.damage == 0 && h.hp is Some
                        && !h.ends_stealth
                    &&& !caster.undead && caster.hp + first <= caster.max_hp ==> h.hp->0
                        - caster.hp == first
                    &&& !caster.undead && caster.hp + first >= caster.max_hp ==> h.hp->0
                        == caster.max_hp
                    &&& caster.undead && caster.hp >= first ==> caster.hp - h.hp->0 == first
                    &&& caster.undead && caster.hp <= first ==> h.hp->0 == 0
                    &&& h.dies <==> caster.undead && caster.hp <= first
                    &&& h.over_time == heal_over_time(row, caster.undead)
                },
                None => s.moral != 11 || posture == 3 || caster.hp <= 0,
            }
        }),
{
    crate::spell_cast::law_heals_give_their_amount(row, caster);
}

/// What an attack on an area does to a bot of another nation that lives within its radius:
/// what the spell does to one NPC, and damage over time, by the formula, where it lives on.
pub proof fn law_area_attacks_on_bots(
    s: AreaSpell,
    row: MagicType3Row,
    known: Option<MagicRow>,
    b: AreaBot,
)
    ensures
        ({
            let genie = mage_class(s.class) && s.genie_active;
            let reached = s.moral == 10 && !genie && b.alive && b.nation != s.nation
                && b.in_radius;
            match area_bot_hit(s, row, known, b) {
                Some(h) => {
                    &&& reached && h.id == b.id
                    &&& h.wound is None <==> b.bot.hp <= 0 || b.bot.dead
                    &&& h.wound == bot_damage(
                        b.id,
                        b.bot,
                        s.authority,
                        known,
                        npc_spell(s.skill_id, row, b.formula_damage),
                    )
                    &&& h.wound is Some && h.wound->0.hp >= 1 ==> h.over_time
                        == damage_over_time(row, s.zone_id, b.formula_time_damage, 100)
                    &&& h.wound is None || h.wound->0.hp <= 0 ==> h.over_time is None
                },
                None => !reached,
            }
        }),
{
}

/// What an attack on an area does to a living monster within its radius that is no monument of
/// the caster's: the damage that was scaled for it or else the row's or the formula's, off its
/// health down to nothing. Weapons wear out but at the survivors of the dead, whose death comes
/// later.
pub proof fn law_area_attacks_on_monsters(
    s: AreaSpell,
    row: MagicType3Row,
    attacker: NpcAttacker,
    known: Option<MagicRow>,
    n: AreaNpc,
)
    requires
        -32767 <= or_i32(row.first_damage, 0),
        n.base_damage >= 0,
        n.scaled_damage is Some ==> n.scaled_damage->0 >= 0,
        n.npc.hp is Some ==> n.npc.hp->0 >= 0,
    ensures
        ({
            let first = or_i32(row.first_damage, 0);
            let direct = or_i32(row.direct_type, 0);
            let by_formula = first < 0 && s.skill_id < 400000 && (direct == 1 || direct == 8);
            let master = attacker.authority == Some(0u8) && !(known is Some && (known->0.type1
                == Some(3i16) || known->0.type2 == Some(3i16)));
            let damage = if master {
                30000
            } else if n.scaled_damage is Some {
                n.scaled_damage->0 as int
            } else if by_formula {
                n.base_damage as int
            } else if first < 0 {
                -first
            } else {
                0
            };
            let reached = s.moral == 10 && !own_juraid_monument(n.npc, attacker) && n.monster
                && n.npc.hp is Some && n.npc.hp->0 >= 1 && n.in_reach;
            match area_spell_npc_hit(s, row, attacker, known, n) {
                Some(h) => {
                    &&& reached && h.npc_id == n.npc_id && h.damage == damage
                    &&& n.npc.hp->0 > damage ==> n.npc.hp->0 - h.hp == damage && !h.dies
                    &&& n.npc.hp->0 <= damage ==> h.hp == 0 && h.dies
                    &&& h.wears_weapon == !n.npc.manes_survival
                    &&& h.deferred_death == (h.dies && n.npc.manes_survival)
                },
                None => !reached,
            }
        }),
{
    let first = or_i32(row.first_damage, 0);
    crate::spell::law_formula_or_row(first, or_i32(row.direct_type, 0), s.skill_id);
}

} // verus!
