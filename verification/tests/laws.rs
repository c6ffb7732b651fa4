//! The laws of the library on concrete values.

use ko_game::buff::{create_active_buff, is_debuff, is_debuff_type};
use ko_game::buff_cast::{
    AreaBuff, AreaBuffCast, AreaBuffPlayer, BuffSlots, CurseGuard, Debuff, DebuffRolls,
    DebuffTarget, NpcDebuff, PartyGrant, PartyMember, apply_bot_type4_support,
    apply_npc_type4_support, build_support, debuff_npc, decide_area_buff, decide_area_buffs,
    decide_debuff, grant_type4_buff_to_target, party_targets, resists_slow, roll_all,
    roll_debuff_rolls, saved_duration,
};
use ko_game::cast::{CastMemory, Gate};
use ko_game::constants::{
    FIRE_DAMAGE, GM_FIXED_DAMAGE, MAGIC_EFFECTING, MORAL_AREA_ALL, MORAL_AREA_ENEMY,
    MORAL_AREA_FRIEND, MORAL_ENEMY, MORAL_PARTY, MORAL_PARTY_ALL, MORAL_SELF, USER_DEAD,
    USER_STANDING, USER_STATUS_DOT, USER_STATUS_POISON, WIZ_MAGIC_PROCESS, ZONE_BDW,
    ZONE_CHAOS_DUNGEON, ZONE_DELOS, ZONE_JURAID, ZONE_MORADON,
};
use ko_game::control::{StealthCaster, Type7Plan, execute_type7, execute_type9};
use ko_game::cooldown::SkillCooldowns;
use ko_game::hit::{HitBand, HitResult, hit_result};
use ko_game::instance::{MagicInstance, parse_request};
use ko_game::mana::{Payment, Vitals, check_and_deduct_mana};
use ko_game::npc_damage::{
    BotTarget, NpcAttacker, NpcDamage, NpcKind, NpcTarget, SiegeState, Unit, UnitDamage,
    apply_skill_damage_to_bot, apply_skill_damage_to_npc, damage_unit, decide_faint, is_immune,
    is_immune_kind, is_own_juraid_monument, try_elemental_faint,
};
use ko_game::physical::{
    AreaCaster, AreaHit, AreaNpc, AreaPlayer, fix_zone_damage, get_reaching_damage, strike_npc,
    strike_npcs, strike_players, type1_npc_damage, type1_player_damage,
};
use ko_game::random::{pick_index, roll};
use ko_game::revive::{
    Corpse, StoneFee, TYPE5_REMOVE_BLESS, TYPE5_REMOVE_TYPE3, TYPE5_REMOVE_TYPE4,
    TYPE5_RESURRECTION, TYPE5_RESURRECTION_SELF, Type5Action, get_stone_fee, plan_type5, revive,
};
use ko_game::route::{
    CancelFacts, EffectFacts, EffectStep, ExecutionRoute, execute_skill, hot_session, manes_lands,
    plan_cancel, plan_effect, roll_effect, settle_miss,
};
use ko_game::skills::{
    check_skill_class, is_drain_skill, is_mage_armor_skill, is_rush_skill, is_staff_skill,
    is_stomp_skill,
};
use ko_game::spell::NpcResistances;
use ko_game::spell_area::{
    AreaBot, AreaSpell, SpellAreaPlayer, heal_area_caster, hit_bot, hit_bots, hit_npcs, hit_player,
    is_genie_area, reaches, reaches_bot,
};
use ko_game::spell_cast::{
    DirectEffect, Durational, FriendHealState, HealTarget, SpellGate, SpellTarget, Type3Gate,
    Type3Route, apply_heal, begin_type3, check_friend_heal, check_spell, friend_target,
    get_heal_amount, heal_hp, is_potion, npc_spell_damage, plan_damage_over_time,
    plan_direct_effect, plan_heal_over_time, send_type3_inflict_status, uses_dot_formula,
};
use ko_game::tables::{
    BuffKind, MagicRow, MagicType1Row, MagicType3Row, MagicType4Row, MagicType5Row, MagicType6Row,
    MagicType7Row, MagicType8Row, MagicType9Row,
};
use ko_game::transform::{
    Shape, TransformCaster, TransformGate, cancel_transformation, execute_type6,
};
use ko_game::victim::{
    CounterRoute, ItemBonus, KillScore, Member, Mirror, SkillDamage, Victim, Wound,
    apply_skill_damage, counter_instance, equipment_mirror, gm_fixed_skill_damage, kill_score,
    mirror_to_party, reflected_hp, route_counter, send_target_hp_update, try_reflect_damage,
};
use ko_game::warp::{
    Kick, WarpOutcome, WarpPair, WarpRoute, WarpScene, ZoneAbilities, choose_monster, execute_type8,
    route_type8, summon_class, type8_warp12_target, type8_warp25_destination,
    type8_warp27_destination,
};
use std::collections::HashMap;

fn effect(skill_id: u32, target_id: i32) -> MagicInstance {
    MagicInstance { opcode: MAGIC_EFFECTING, skill_id, caster_id: 1, target_id, data: [0; 7] }
}

fn vitals(hp: i16, mp: i16) -> Vitals {
    Vitals { hp, max_hp: 500, mp, max_mp: 200, sp: 30, max_sp: 100 }
}

fn victim() -> Victim {
    Victim {
        hp: 500,
        mp: 100,
        max_mp: 200,
        authority: 1,
        mastered: false,
        master_points: 0,
        zone_id: ZONE_MORADON,
        in_party: false,
        magic_damage_reduction: 100,
        mirror_damage: false,
        mirror_damage_type: false,
        mirror_amount: 0,
        mana_absorb: 0,
        absorb_count: 0,
    }
}

fn wound_of(v: &Victim, damage: i16) -> Wound {
    match apply_skill_damage(Some(1), &None, v, damage) {
        SkillDamage::Dealt(w) => w,
        SkillDamage::Shown => panic!("no damage"),
    }
}

fn npc(kind: NpcKind, proto_id: u16) -> NpcTarget {
    NpcTarget {
        kind,
        proto_id,
        group: 1,
        nation: 0,
        zone_id: 30,
        hp: Some(500),
        max_hp: 500,
        juraid_monument: None,
        manes_survival: false,
    }
}

fn attacker(clan_id: u16) -> NpcAttacker {
    NpcAttacker { authority: Some(1), nation: Some(1), clan_id, zone_id: 30 }
}

fn siege(active: bool, holder: u16) -> SiegeState {
    SiegeState {
        castle_siege_active: active,
        castle_siege_war: active,
        castle_master_clan: holder,
        beef_active: false,
        beef_monument_dead: false,
    }
}

// Costs

#[test]
fn costs_stay_in_bounds() {
    let skill = MagicRow { msp: Some(60), ..MagicRow::default() };
    let p = check_and_deduct_mana(1, 103, &vitals(500, 60), &skill, 2);
    assert_eq!(p, Payment { accepted: true, mp: Some(0), sp: None, hp: None });
    let p = check_and_deduct_mana(1, 103, &vitals(500, 59), &skill, 2);
    assert_eq!(p, Payment { accepted: false, mp: None, sp: None, hp: None });
    let stamina = MagicRow { s_sp: Some(30), ..MagicRow::default() };
    assert_eq!(check_and_deduct_mana(1, 113, &vitals(500, 0), &stamina, 2).sp, Some(0));
    assert_eq!(check_and_deduct_mana(1, 103, &vitals(500, 0), &stamina, 2).sp, None);
    let blood = MagicRow { hp: Some(501), ..MagicRow::default() };
    assert!(!check_and_deduct_mana(1, 101, &vitals(500, 0), &blood, 2).accepted);
    let blood = MagicRow { hp: Some(500), ..MagicRow::default() };
    assert_eq!(check_and_deduct_mana(1, 101, &vitals(500, 0), &blood, 2).hp, Some(0));
}

#[test]
fn execution_is_paid_for() {
    let skill = MagicRow {
        type1: Some(3),
        msp: Some(50),
        use_item: Some(700100000),
        ..MagicRow::default()
    };
    let facts = EffectFacts {
        zone_id: ZONE_MORADON,
        manes_unlocked: false,
        moved_since_cast: false,
        has_list_item: false,
        warp_possible: true,
        genie_active: false,
        in_pvp_zone: false,
        nation: 1,
        target_nation: Some(2),
        has_required_item: true,
    };
    let m = effect(108010, 2);
    let paid = plan_effect(&m, &skill, &facts, 1, 1, 103, &vitals(500, 50));
    assert_eq!(paid.step, EffectStep::Execute);
    assert_eq!(paid.payment.map(|p| p.mp), Some(Some(0)));
    let poor = plan_effect(&m, &skill, &facts, 1, 1, 103, &vitals(500, 49));
    assert_eq!(poor.step, EffectStep::Refuse);
    let bare = EffectFacts { has_required_item: false, ..facts };
    let unarmed = plan_effect(&m, &skill, &bare, 1, 1, 103, &vitals(500, 50));
    assert_eq!(unarmed.step, EffectStep::Refuse);
    assert_eq!(unarmed.payment.map(|p| p.mp), Some(Some(0)));
    let genie = EffectFacts { genie_active: true, in_pvp_zone: true, ..facts };
    assert_eq!(
        plan_effect(&m, &skill, &genie, 1, 1, 103, &vitals(500, 50)).step,
        EffectStep::Refuse
    );
    let warp = MagicRow { type1: Some(8), ..MagicRow::default() };
    let stuck = EffectFacts { warp_possible: false, ..facts };
    assert_eq!(
        plan_effect(&m, &warp, &stuck, 1, 1, 103, &vitals(500, 50)).step,
        EffectStep::Refuse
    );
    let list = MagicRow { type2: Some(6), use_item: Some(1), ..MagicRow::default() };
    let holder = EffectFacts { has_list_item: true, ..facts };
    assert_eq!(
        plan_effect(&m, &list, &holder, 1, 1, 103, &vitals(500, 50)).step,
        EffectStep::OpenTransformList
    );
    let drawn = roll_effect(&m, &skill, &facts, 1, 103, &vitals(500, 50));
    assert_eq!(drawn.step, EffectStep::Execute);
}

#[test]
fn survival_magic_can_miss() {
    let skill = MagicRow { moral: Some(MORAL_ENEMY), type1: Some(3), ..MagicRow::default() };
    assert!(manes_lands(&skill, 1));
    assert!(manes_lands(&skill, 85));
    assert!(!manes_lands(&skill, 86));
    let hopeless = MagicRow { success_rate: Some(-5), ..skill };
    assert!(manes_lands(&hopeless, 1) && !manes_lands(&hopeless, 2));
}

#[test]
fn missed_magic_waits() {
    let mut m = effect(108010, 2);
    let mut memory = CastMemory {
        skill_cooldowns: SkillCooldowns::new(),
        type_cooldowns: HashMap::new(),
        last_type2_skill_id: 0,
        last_type2_cast_time: 0,
        cast_failed: false,
    };
    settle_miss(&mut m, &mut memory, 50000);
    assert_eq!(m.data[3], -104);
    assert!(memory.skill_cooldowns.on_cooldown(108010, 50899));
    assert!(!memory.skill_cooldowns.on_cooldown(108010, 50900));
}

#[test]
fn debuffs_cannot_be_cancelled() {
    let facts = CancelFacts {
        aimed_at_self: true,
        has_type3: true,
        buff_type: Some(8),
        lockable_scroll: false,
        slot_debuffed: false,
        transformed: false,
        has_type6: false,
        has_type9: true,
    };
    let plan = plan_cancel(108010, &facts);
    assert_eq!((plan.clear_hots, plan.remove_buff), (true, Some(8)));
    assert!(plan.remove_stealth && plan.shown && !plan.cancel_transformation);
    let debuff = CancelFacts { buff_type: Some(150), ..facts };
    assert_eq!(plan_cancel(108010, &debuff).remove_buff, None);
    let other = CancelFacts { aimed_at_self: false, ..facts };
    assert_eq!(plan_cancel(108010, &other).remove_buff, None);
    let locked = CancelFacts { lockable_scroll: true, slot_debuffed: true, ..facts };
    let plan = plan_cancel(500001, &locked);
    assert!(plan.remove_buff.is_none() && !plan.shown && plan.clear_hots);
}

#[test]
fn heals_over_time_do_not_pile_up() {
    let skill = MagicRow { type1: Some(3), ..MagicRow::default() };
    let row = Some(MagicType3Row {
        first_damage: None,
        time_damage: Some(100),
        duration: Some(10),
        direct_type: Some(1),
        attribute: None,
        radius: None,
        add_dmg_perc_to_user: None,
        add_dmg_perc_to_npc: None,
    });
    let first = execute_skill(&skill, 108010, true, &row, false);
    assert_eq!(first, ExecutionRoute { ends_stealth: true, run: Some(3) });
    let second = execute_skill(&skill, 108010, true, &row, true);
    assert_eq!(second, ExecutionRoute { ends_stealth: true, run: None });
    assert_eq!(hot_session(-1, 9), 9);
    assert_eq!(hot_session(4, 9), 4);
}

#[test]
fn classes_ignore_nations() {
    for (a, b) in [(101, 201), (105, 205), (112, 212), (115, 215)] {
        for class in [101u16, 105, 112, 115, 201, 205, 212, 215] {
            assert_eq!(check_skill_class(a, class), check_skill_class(b, class));
        }
    }
}

#[test]
fn kinds_of_skills_are_disjoint() {
    for id in [109742u32, 107650, 105725, 106775] {
        let kinds = [is_staff_skill(id), is_drain_skill(id), is_stomp_skill(id)];
        assert_eq!(kinds.iter().filter(|k| **k).count(), 1);
        assert!(!is_rush_skill(id) && !is_mage_armor_skill(id));
    }
}

// Damage to players

#[test]
fn protections_never_hurt() {
    let w = wound_of(&victim(), 100);
    assert_eq!((w.damage, w.hp, w.dies), (100, 400, false));
    let mastered = Victim { mastered: true, master_points: 10, ..victim() };
    assert_eq!(wound_of(&mastered, 100).damage, 85);
    let mastered = Victim { mastered: true, master_points: 5, ..victim() };
    assert_eq!(wound_of(&mastered, 100).damage, 90);
    let shielded = Victim { magic_damage_reduction: 70, ..victim() };
    assert_eq!(wound_of(&shielded, 100).damage, 70);
    let mirror = Victim {
        mirror_damage: true,
        mirror_damage_type: true,
        mirror_amount: 25,
        ..victim()
    };
    let w = wound_of(&mirror, 100);
    assert_eq!((w.damage, w.mirror), (75, Mirror::Attacker { damage: 25 }));
    let party = Victim { mirror_damage_type: false, in_party: true, ..mirror };
    assert_eq!(wound_of(&party, 100).mirror, Mirror::AttackerParty { damage: 25 });
    let alone = Victim { in_party: false, ..party };
    assert_eq!(wound_of(&alone, 100).mirror, Mirror::Nowhere);
}

#[test]
fn hits_never_heal() {
    let w = wound_of(&Victim { hp: 80, ..victim() }, 100);
    assert_eq!((w.hp, w.dies), (0, true));
    assert_eq!(apply_skill_damage(Some(1), &None, &victim(), 0), SkillDamage::Shown);
    assert_eq!(apply_skill_damage(Some(1), &None, &victim(), -50), SkillDamage::Shown);
    let master = Victim { authority: 0, ..victim() };
    assert_eq!(apply_skill_damage(Some(1), &None, &master, 100), SkillDamage::Shown);
}

#[test]
fn some_zones_have_no_protections() {
    let v = Victim {
        zone_id: ZONE_CHAOS_DUNGEON,
        mastered: true,
        master_points: 10,
        mirror_damage: true,
        mirror_damage_type: true,
        mirror_amount: 50,
        mana_absorb: 15,
        absorb_count: 3,
        ..victim()
    };
    let w = wound_of(&v, 100);
    assert_eq!((w.damage, w.mp, w.absorb_count, w.mirror), (100, 100, 3, Mirror::Nowhere));
}

#[test]
fn mana_shields_wear_off() {
    let v = Victim { mana_absorb: 15, absorb_count: 1, ..victim() };
    let w = wound_of(&v, 100);
    assert_eq!((w.damage, w.mp, w.absorb_count), (85, 115, 0));
    let spent = Victim { absorb_count: 0, ..v };
    let w = wound_of(&spent, 100);
    assert_eq!((w.damage, w.mp), (100, 100));
    let endless = Victim { mana_absorb: 40, absorb_count: 0, ..victim() };
    let w = wound_of(&endless, 100);
    assert_eq!((w.damage, w.mp), (60, 140));
}

#[test]
fn masters_strike_hard_but_cast_as_others() {
    assert_eq!(gm_fixed_skill_damage(Some(0), &None, 10), GM_FIXED_DAMAGE);
    assert_eq!(gm_fixed_skill_damage(Some(1), &None, 10), 10);
    assert_eq!(gm_fixed_skill_damage(None, &None, 10), 10);
    let spell = Some(MagicRow { type1: Some(3), ..MagicRow::default() });
    assert_eq!(gm_fixed_skill_damage(Some(0), &spell, 10), 10);
}

#[test]
fn armor_answers_once() {
    let mut armor = FIRE_DAMAGE;
    assert_eq!(try_reflect_damage(&mut armor, Some(1), 1, 2, 10), Some(190573));
    assert_eq!(try_reflect_damage(&mut armor, Some(1), 1, 2, 10), None);
    let mut armor = FIRE_DAMAGE;
    assert_eq!(try_reflect_damage(&mut armor, Some(1), 2, 2, 10), None);
    assert_eq!(try_reflect_damage(&mut armor, Some(1), 1, 2, 0), None);
    assert_eq!(try_reflect_damage(&mut armor, None, 1, 2, 10), None);
    let m = counter_instance(190573, 1, 2, Some((500, 600)));
    assert_eq!((m.skill_id, m.caster_id, m.target_id), (190573, 2, 1));
    let spell = Some(MagicRow { type1: Some(3), ..MagicRow::default() });
    assert_eq!(route_counter(&spell), CounterRoute::Type3);
    assert_eq!(route_counter(&None), CounterRoute::Dropped);
}

#[test]
fn mirrors_spare_the_victim() {
    let members = vec![
        Member { sid: 1, hp: 100 },
        Member { sid: 2, hp: 100 },
        Member { sid: 3, hp: 0 },
        Member { sid: 4, hp: 1 },
    ];
    let hits = mirror_to_party(&members, 2, 40);
    assert_eq!(hits, vec![Member { sid: 1, hp: 96 }, Member { sid: 4, hp: 0 }]);
    let hits = mirror_to_party(&members, 2, 4);
    assert_eq!(hits[0], Member { sid: 1, hp: 98 });
    let worn = vec![
        ItemBonus { kind: 8, amount: 10 },
        ItemBonus { kind: 1, amount: 50 },
        ItemBonus { kind: 8, amount: 5 },
    ];
    assert!(equipment_mirror(&worn, 200) > 0);
    assert_eq!(equipment_mirror(&Vec::new(), 200), 0);
    assert_eq!(reflected_hp(100, 30), 70);
    assert_eq!(reflected_hp(100, 300), 0);
    assert_eq!(kill_score(ZONE_BDW), KillScore::BorderDefenceWar);
    assert_eq!(kill_score(ZONE_CHAOS_DUNGEON), KillScore::Chaos);
    assert_eq!(kill_score(ZONE_JURAID), KillScore::Juraid);
    assert_eq!(kill_score(ZONE_MORADON), KillScore::Nobody);
}

#[test]
fn health_bars_are_updated() {
    let bar = send_target_hp_update(7, Some((400, 500)), 100).unwrap();
    assert_eq!((bar.target_id, bar.max_hp, bar.hp, bar.amount), (7, 500, 400, -100));
    assert_eq!(send_target_hp_update(7, None, 100), None);
}

// Damage to NPCs

#[test]
fn castles_are_safe_in_peace() {
    let door = npc(NpcKind::Gate, 561);
    assert!(is_immune(&door, &attacker(5), &siege(false, 9), 105010));
    assert!(is_immune(&door, &attacker(9), &siege(true, 9), 105010));
    assert!(is_immune(&door, &attacker(0), &siege(true, 9), 105010));
    assert!(!is_immune(&door, &attacker(5), &siege(true, 9), 105010));
    assert!(!is_immune(&npc(NpcKind::Gate, 560), &attacker(0), &siege(false, 9), 105010));
}

#[test]
fn own_monuments_are_safe() {
    let peace = siege(false, 0);
    let monument = npc(NpcKind::PvpMonument, 14003);
    assert!(is_immune(&monument, &attacker(0), &peace, 105010));
    assert!(!is_immune(&npc(NpcKind::PvpMonument, 14004), &attacker(0), &peace, 105010));
    let juraid = NpcTarget {
        zone_id: ZONE_JURAID,
        juraid_monument: Some(1),
        ..npc(NpcKind::Other, 1)
    };
    assert!(is_own_juraid_monument(&juraid, &attacker(0)));
    let foreign = NpcTarget { juraid_monument: Some(2), ..juraid };
    assert!(!is_own_juraid_monument(&foreign, &attacker(0)));
    for kind in [NpcKind::Tree, NpcKind::Fosil, NpcKind::Refugee, NpcKind::GateLever] {
        assert!(is_immune_kind(kind));
    }
    let bifrost = npc(NpcKind::BifrostMonument, 1);
    assert!(is_immune(&bifrost, &attacker(0), &peace, 105010));
    let running = SiegeState { beef_active: true, ..peace };
    assert!(!is_immune(&bifrost, &attacker(0), &running, 105010));
    let neutral = NpcTarget { group: 3, ..npc(NpcKind::Other, 1) };
    assert!(is_immune(&neutral, &attacker(0), &peace, 105010));
}

#[test]
fn hits_never_heal_npcs() {
    let m = effect(105010, 10500);
    let skill = MagicRow::default();
    let peace = siege(false, 0);
    let weak = NpcTarget { hp: Some(80), ..npc(NpcKind::Other, 1) };
    let dealt = apply_skill_damage_to_npc(
        10500, &weak, &attacker(0), &peace, &m, &skill, &None, 100,
    );
    match dealt {
        NpcDamage::Dealt(w) => {
            assert_eq!((w.damage, w.hp, w.dies, w.wears_weapon), (100, 0, true, true));
            assert_eq!((w.bar.target_id, w.bar.hp, w.bar.amount), (10500, 0, -100));
        }
        other => panic!("{:?}", other),
    }
    let none = apply_skill_damage_to_npc(10500, &weak, &attacker(0), &peace, &m, &skill, &None, 0);
    assert!(matches!(none, NpcDamage::Shown));
    let dead = NpcTarget { hp: Some(0), ..weak };
    let gone = apply_skill_damage_to_npc(10500, &dead, &attacker(0), &peace, &m, &skill, &None, 9);
    assert!(matches!(gone, NpcDamage::Nothing));
    let tree = npc(NpcKind::Tree, 1);
    let safe = apply_skill_damage_to_npc(10500, &tree, &attacker(0), &peace, &m, &skill, &None, 9);
    assert!(matches!(safe, NpcDamage::Nothing));
    let survivor = NpcTarget { manes_survival: true, ..npc(NpcKind::Other, 1) };
    let spell = MagicRow { type1: Some(3), ..skill };
    match apply_skill_damage_to_npc(
        10500, &survivor, &attacker(0), &peace, &m, &spell, &None, 100,
    ) {
        NpcDamage::Dealt(w) => {
            assert_eq!(w.effect.data[3], -100);
            assert!(!w.wears_weapon);
        }
        other => panic!("{:?}", other),
    }
}

#[test]
fn bots_are_hit_before_npcs() {
    let bot = BotTarget { hp: 100, max_hp: 300, dead: false };
    let w = apply_skill_damage_to_bot(20000, &bot, Some(1), &None, 60).unwrap();
    assert_eq!((w.hp, w.dies, w.bar.amount), (40, false, -60));
    let dead = BotTarget { dead: true, ..bot };
    assert!(apply_skill_damage_to_bot(20000, &dead, Some(1), &None, 60).is_none());
    let unit = Unit { bot: Some(bot), npc: None, scaled_damage: None };
    let m = effect(105010, 20000);
    let skill = MagicRow::default();
    let peace = siege(false, 0);
    match damage_unit(20000, &unit, &attacker(0), &peace, &m, &skill, &None, 100) {
        UnitDamage::Bot(Some(w)) => assert!(w.dies),
        other => panic!("{:?}", other),
    }
    let gone = Unit { bot: None, npc: None, scaled_damage: None };
    assert!(matches!(
        damage_unit(20000, &gone, &attacker(0), &peace, &m, &skill, &None, 100),
        UnitDamage::Npc(NpcDamage::Nothing)
    ));
    let scaled = Unit {
        bot: None,
        npc: Some(npc(NpcKind::Other, 1)),
        scaled_damage: Some(30),
    };
    match damage_unit(20000, &scaled, &attacker(0), &peace, &m, &skill, &None, 100) {
        UnitDamage::Npc(NpcDamage::Dealt(w)) => assert_eq!(w.hp, 470),
        other => panic!("{:?}", other),
    }
}

#[test]
fn resistance_prevents_faints() {
    let r = |v: i16| NpcResistances {
        fire_r: v,
        cold_r: v,
        lightning_r: v,
        magic_r: v,
        disease_r: v,
        poison_r: v,
    };
    assert!(decide_faint(Some(false), &r(0), 1, 49));
    assert!(!decide_faint(Some(false), &r(0), 1, 50));
    assert!(decide_faint(Some(false), &r(50), 1, 24));
    assert!(!decide_faint(Some(false), &r(50), 1, 25));
    assert!(!decide_faint(Some(false), &r(98), 1, 1));
    assert!(!decide_faint(Some(true), &r(0), 1, 1));
    assert!(!decide_faint(None, &r(0), 1, 1));
    assert!(!decide_faint(Some(false), &r(0), 9, 1));
    let mut fainted = 0;
    for _ in 0..1000 {
        if try_elemental_faint(Some(false), &r(0), 1) {
            fainted += 1;
        }
    }
    assert!((350..650).contains(&fainted), "about half of them: {}", fainted);
}

// Melee

fn near(sid: u16) -> AreaPlayer {
    AreaPlayer {
        sid,
        res_hp_type: USER_STANDING,
        hp: 500,
        authority: 1,
        nation: 2,
        blinking: false,
        hostile: true,
        in_reach: true,
        blocks_physical: false,
        base_damage: Some(50),
    }
}

fn type1_row(add_damage: i32) -> MagicType1Row {
    MagicType1Row {
        i_num: 1,
        hit_type: None,
        hit_rate: None,
        hit: None,
        add_damage: Some(add_damage),
        add_dmg_perc_to_user: None,
        add_dmg_perc_to_npc: None,
    }
}

#[test]
fn areas_spare_the_protected() {
    let caster = AreaCaster { authority: Some(1), nation: 1, zone_id: 21, skill_id: 105725 };
    let row = type1_row(30);
    let players = vec![
        near(2),
        AreaPlayer { authority: 0, ..near(3) },
        AreaPlayer { blinking: true, ..near(4) },
        AreaPlayer { hostile: false, ..near(5) },
        AreaPlayer { in_reach: false, ..near(6) },
        AreaPlayer { hp: 0, ..near(7) },
        AreaPlayer { base_damage: None, ..near(8) },
        AreaPlayer { blocks_physical: true, ..near(9) },
    ];
    let hits = strike_players(&caster, &row, &None, &players);
    assert_eq!(
        hits,
        vec![
            AreaHit { sid: 2, damage: 80, hp: 420, dies: false, ends_stealth: true },
            AreaHit { sid: 9, damage: 50, hp: 450, dies: false, ends_stealth: true },
        ]
    );
}

#[test]
fn accuracy_never_hurts() {
    let bands = [
        HitBand::Below,
        HitBand::From0_2,
        HitBand::From0_33,
        HitBand::From0_5,
        HitBand::From0_8,
        HitBand::From1_25,
        HitBand::From2,
        HitBand::From3,
        HitBand::From5,
    ];
    let quality = |r: HitResult| match r {
        HitResult::Fail => 0,
        HitResult::Normal => 1,
        HitResult::Success => 2,
        HitResult::GreatSuccess => 3,
    };
    for roll in 1..=10000 {
        for pair in bands.windows(2) {
            let lower = quality(hit_result(pair[0], roll));
            assert!(lower <= quality(hit_result(pair[1], roll)));
        }
    }
    assert_eq!(hit_result(HitBand::Below, 1000), HitResult::Success);
    assert_eq!(hit_result(HitBand::From5, 1000), HitResult::GreatSuccess);
}

#[test]
fn chaos_damage_is_fixed() {
    assert_eq!(fix_zone_damage(ZONE_CHAOS_DUNGEON, 105010, 7), 100);
    assert_eq!(fix_zone_damage(ZONE_CHAOS_DUNGEON, 490226, 7), 1000);
    assert_eq!(fix_zone_damage(ZONE_MORADON, 105010, 7), 7);
    assert_eq!(type1_player_damage(&type1_row(9), 7, true, ZONE_CHAOS_DUNGEON, 105010), 100);
}

#[test]
fn bonuses_shrink_against_players() {
    let row = type1_row(90);
    assert_eq!(type1_npc_damage(&row, 10, 21, 105010), 100);
    assert_eq!(type1_player_damage(&row, 10, true, 61, 105010), 55);
    assert_eq!(type1_player_damage(&row, 10, false, 21, 105010), 40);
    assert_eq!(type1_npc_damage(&type1_row(32767), 32767, 21, 105010), 32767);
}

// Spells

fn type3_row(first: i32, over: i32, duration: i32) -> MagicType3Row {
    MagicType3Row {
        first_damage: Some(first),
        time_damage: Some(over),
        duration: Some(duration),
        direct_type: Some(1),
        attribute: Some(1),
        radius: None,
        add_dmg_perc_to_user: None,
        add_dmg_perc_to_npc: None,
    }
}

#[test]
fn heals_heal_the_living_and_hurt_the_undead() {
    let t = HealTarget { hp: 450, max_hp: 500, mp: 0, max_mp: 100, undead: false };
    assert_eq!(heal_hp(&t, 100), 500);
    assert_eq!(heal_hp(&t, 30), 480);
    let undead = HealTarget { undead: true, ..t };
    assert_eq!(heal_hp(&undead, 100), 350);
    assert_eq!(heal_hp(&undead, 1000), 0);
    let mut m = effect(108010, 1);
    let h = apply_heal(&mut m, &type3_row(1000, 0, 0), &undead);
    assert!(h.dies && h.hp == Some(0) && h.over_time.is_none());
    let mana = MagicType3Row { direct_type: Some(2), ..type3_row(30, 0, 0) };
    let h = apply_heal(&mut m, &mana, &t);
    assert_eq!((h.hp, h.mp), (None, Some(30)));
    let regrow = type3_row(0, 100, 10);
    assert_eq!(
        plan_heal_over_time(&regrow, false),
        Some(Durational { hp_per_tick: 20, ticks: 5 })
    );
    assert_eq!(
        plan_heal_over_time(&regrow, true),
        Some(Durational { hp_per_tick: -20, ticks: 5 })
    );
    assert_eq!(get_heal_amount(&type3_row(-70, 0, 0)), 70);
}

#[test]
fn damage_over_time_hurts() {
    let plain = MagicType3Row { attribute: Some(4), ..type3_row(0, -3, 20) };
    assert_eq!(
        plan_damage_over_time(&plain, 21, 0, 100),
        Some(Durational { hp_per_tick: -1, ticks: 10 })
    );
    assert_eq!(
        plan_damage_over_time(&plain, ZONE_CHAOS_DUNGEON, 0, 100),
        Some(Durational { hp_per_tick: -1, ticks: 20 })
    );
    let formula = type3_row(0, -100, 10);
    assert!(uses_dot_formula(&formula) && !uses_dot_formula(&plain));
    assert_eq!(
        plan_damage_over_time(&formula, 21, 200, 50),
        Some(Durational { hp_per_tick: -20, ticks: 5 })
    );
    assert_eq!(plan_damage_over_time(&type3_row(0, 0, 10), 21, 0, 100), None);
    assert_eq!(plan_damage_over_time(&type3_row(0, -5, 0), 21, 0, 100), None);
    let long = type3_row(0, -1000, 10000);
    assert_eq!(plan_damage_over_time(&long, 21, 1000, 100).unwrap().ticks, 255);
    assert_eq!(send_type3_inflict_status(6), USER_STATUS_POISON);
    assert_eq!(send_type3_inflict_status(1), USER_STATUS_DOT);
}

#[test]
fn potions_wait() {
    let skill = MagicRow {
        moral: Some(MORAL_SELF),
        item_group: Some(9),
        type1: Some(3),
        ..MagicRow::default()
    };
    let row = Some(type3_row(100, 0, 0));
    let gate = Type3Gate {
        can_use_potions: true,
        item_class: 0,
        target_has_durational: false,
        event_active: false,
        event_attackable: false,
        target_in_event_zone: false,
    };
    let mut last: u64 = 0;
    let mut m = effect(490014, 1);
    assert!(is_potion(490014, &skill, &type3_row(100, 0, 0)));
    let first = begin_type3(&mut m, &skill, &row, &gate, &mut last, 50000);
    assert_eq!(first, Type3Route::HealSelf);
    assert_eq!(last, 50000);
    let second = begin_type3(&mut m, &skill, &row, &gate, &mut last, 52399);
    assert_eq!(second, Type3Route::Failed);
    let third = begin_type3(&mut m, &skill, &row, &gate, &mut last, 52400);
    assert_eq!(third, Type3Route::HealSelf);
    let banned = Type3Gate { can_use_potions: false, ..gate };
    let item = MagicRow { use_item: Some(389010000), ..skill };
    let stopped = begin_type3(&mut m, &item, &row, &banned, &mut last, 60000);
    assert_eq!(stopped, Type3Route::Failed);
}

fn bystander(sid: u16) -> SpellAreaPlayer {
    SpellAreaPlayer {
        sid,
        res_hp_type: USER_STANDING,
        hp: 500,
        max_hp: 600,
        authority: 1,
        nation: 2,
        undead: false,
        blinking: false,
        blocks_magic: false,
        in_radius: true,
        hostile: true,
        both_in_special_zone: false,
        in_own_safety: false,
        stats_known: true,
        formula_damage: 70,
        formula_time_damage: 0,
        class_factor: None,
        class_scaled: 0,
        magic_damage_reduction: 100,
    }
}

fn area_spell(moral: i16) -> AreaSpell {
    AreaSpell {
        moral,
        skill_id: 108010,
        authority: Some(1),
        class: 103,
        nation: 1,
        zone_id: 21,
        genie_active: false,
        in_enemy_safety: false,
    }
}

#[test]
fn areas_tell_friends_from_enemies() {
    let foe = bystander(2);
    let friend = SpellAreaPlayer { hostile: false, ..foe };
    let attack = area_spell(MORAL_AREA_ENEMY);
    assert!(reaches(&attack, &foe) && !reaches(&attack, &friend));
    assert!(!reaches(&attack, &SpellAreaPlayer { authority: 0, ..foe }));
    assert!(!reaches(&attack, &SpellAreaPlayer { blocks_magic: true, ..foe }));
    let heal = area_spell(MORAL_AREA_FRIEND);
    assert!(!reaches(&heal, &foe) && reaches(&heal, &friend));
    let genie = AreaSpell { genie_active: true, ..attack };
    assert!(is_genie_area(&genie) && !reaches(&genie, &foe));
    let hit = hit_player(&attack, &type3_row(-10, 0, 0), &None, &foe).unwrap();
    assert_eq!((hit.damage, hit.hp, hit.heals), (70, Some(430), false));
    let cured = hit_player(&heal, &type3_row(50, 0, 0), &None, &friend).unwrap();
    assert_eq!((cured.damage, cured.hp, cured.heals), (0, Some(550), true));
    let own = HealTarget { hp: 100, max_hp: 600, mp: 0, max_mp: 0, undead: false };
    let caster =
        heal_area_caster(&heal, &type3_row(50, 0, 0), 1, &own, USER_STANDING).unwrap();
    assert_eq!((caster.sid, caster.hp), (1, Some(150)));
    assert!(heal_area_caster(&attack, &type3_row(50, 0, 0), 1, &own, USER_STANDING).is_none());
}

#[test]
fn bots_are_reached_by_attacks() {
    let bot = AreaBot {
        id: 20000,
        bot: BotTarget { hp: 100, max_hp: 300, dead: false },
        alive: true,
        nation: 2,
        in_radius: true,
        formula_damage: 40,
        formula_time_damage: 60,
    };
    let s = area_spell(MORAL_AREA_ENEMY);
    let hit = hit_bot(&s, &type3_row(-10, -30, 6), &None, &bot).unwrap();
    assert_eq!(hit.wound.map(|w| w.hp), Some(60));
    assert_eq!(hit.over_time, Some(Durational { hp_per_tick: -20, ticks: 3 }));
    let own = AreaBot { nation: 1, ..bot };
    assert!(hit_bot(&s, &type3_row(-10, 0, 0), &None, &own).is_none());
    assert!(!reaches_bot(&area_spell(MORAL_AREA_ALL), true, 2, true));
    let bots = vec![bot, own];
    assert_eq!(hit_bots(&s, &type3_row(-10, 0, 0), &None, &bots).len(), 1);
}

#[test]
fn spells_are_stopped_by_their_targets() {
    let t = SpellTarget {
        state: Some((USER_STANDING, 100)),
        blinking: false,
        blocks_magic: false,
        in_range: true,
        caster_present: true,
        hostile: true,
        caster_zone: 21,
        snow_battle: false,
        stats_known: true,
    };
    assert_eq!(check_spell(&t), SpellGate::Clear);
    assert_eq!(check_spell(&SpellTarget { state: None, ..t }), SpellGate::Lost);
    let dead = SpellTarget { state: Some((USER_DEAD, 100)), ..t };
    assert_eq!(check_spell(&dead), SpellGate::Failed);
    assert_eq!(check_spell(&SpellTarget { blinking: true, ..t }), SpellGate::Failed);
    assert_eq!(check_spell(&SpellTarget { blocks_magic: true, ..t }), SpellGate::Failed);
    assert_eq!(check_spell(&SpellTarget { in_range: false, ..t }), SpellGate::Failed);
    assert_eq!(check_spell(&SpellTarget { caster_present: false, ..t }), SpellGate::Lost);
    assert_eq!(check_spell(&SpellTarget { hostile: false, ..t }), SpellGate::Failed);
    assert_eq!(check_spell(&SpellTarget { stats_known: false, ..t }), SpellGate::Lost);
}

#[test]
fn direct_effects_have_exact_values() {
    let mut m = effect(108010, 2);
    let drain = MagicType3Row { direct_type: Some(2), ..type3_row(-30, 0, 0) };
    assert_eq!(
        plan_direct_effect(&mut m, &drain, 100, 500, 20, 200),
        DirectEffect::Mana { mp: 0, shown: 30 }
    );
    let half = MagicType3Row { direct_type: Some(5), ..type3_row(-50, 0, 0) };
    assert_eq!(
        plan_direct_effect(&mut m, &half, 200, 500, 0, 0),
        DirectEffect::Damage { damage: 100 }
    );
    assert_eq!(
        plan_direct_effect(&mut m, &type3_row(-50, 0, 0), 200, 500, 0, 0),
        DirectEffect::Formula
    );
    let plain = MagicType3Row { direct_type: Some(3), ..type3_row(-50, 0, 0) };
    assert_eq!(
        plan_direct_effect(&mut m, &plain, 200, 500, 0, 0),
        DirectEffect::Damage { damage: 50 }
    );
    let more = MagicType3Row { add_dmg_perc_to_npc: Some(200), ..plain };
    assert_eq!(npc_spell_damage(108010, &more, 7), 100);
    assert_eq!(npc_spell_damage(108010, &type3_row(-50, 0, 0), 7), 7);
}

#[test]
fn friends_are_healed_once() {
    let s = FriendHealState {
        caster_is_monster: false,
        caster_has_hot: false,
        target: Some((USER_STANDING, 10)),
        target_has_hot: false,
    };
    let regrow = type3_row(0, 100, 10);
    assert!(check_friend_heal(MORAL_PARTY, &regrow, &s));
    let second = FriendHealState { target_has_hot: true, ..s };
    assert!(!check_friend_heal(MORAL_PARTY, &regrow, &second));
    assert!(check_friend_heal(MORAL_PARTY_ALL, &regrow, &second));
    let caster = FriendHealState { caster_has_hot: true, ..s };
    assert!(!check_friend_heal(MORAL_PARTY_ALL, &regrow, &caster));
    let monster = FriendHealState { caster_is_monster: true, ..s };
    assert!(!check_friend_heal(MORAL_PARTY_ALL, &regrow, &monster));
    let dead = FriendHealState { target: Some((USER_DEAD, 10)), ..s };
    assert!(!check_friend_heal(MORAL_PARTY, &regrow, &dead));
    let gone = FriendHealState { target: None, ..s };
    assert!(!check_friend_heal(MORAL_PARTY, &type3_row(50, 0, 0), &gone));
    assert_eq!(friend_target(-1, 9), 9);
    assert_eq!(friend_target(3, 9), 3);
}

// Buffs

fn type4_row(buff_type: i32, kind: BuffKind) -> MagicType4Row {
    MagicType4Row {
        buff_type: Some(buff_type),
        kind,
        duration: Some(60),
        radius: None,
        attack_speed: None,
        speed: None,
        ac: None,
        ac_pct: None,
        attack: None,
        magic_attack: None,
        max_hp: None,
        max_hp_pct: None,
        max_mp: None,
        max_mp_pct: None,
        str: None,
        sta: None,
        dex: None,
        intel: None,
        cha: None,
        fire_r: None,
        cold_r: None,
        lightning_r: None,
        magic_r: None,
        disease_r: None,
        poison_r: None,
        hit_rate: None,
        avoid_rate: None,
        exp_pct: None,
        special_amount: None,
    }
}

#[test]
fn new_buffs_are_fresh() {
    let row = MagicType4Row { duration: Some(-5), ..type4_row(8, BuffKind::Other) };
    let buff = create_active_buff(108010, 3, &row, true, 77);
    assert_eq!((buff.duration_secs, buff.start_time, buff.duration_extended), (0, 77, false));
    assert_eq!((buff.buff_type, buff.caster_sid, buff.is_buff), (8, 3, true));
    assert_eq!(saved_duration(&type4_row(8, BuffKind::Other)), 60);
}

#[test]
fn types_tell_what_harms() {
    let harm = create_active_buff(1, 1, &type4_row(47, BuffKind::Other), false, 0);
    assert!(is_debuff(&harm));
    let help = create_active_buff(1, 1, &type4_row(50, BuffKind::Other), true, 0);
    assert!(!is_debuff(&help));
    assert!(is_debuff_type(47) && !is_debuff_type(50));
}

#[test]
fn buffs_exclude_each_other() {
    let free = BuffSlots { has_speed: false, has_speed2: false, has_same: false };
    let speed = type4_row(6, BuffKind::Speed);
    let speed2 = type4_row(40, BuffKind::Speed2);
    assert!(grant_type4_buff_to_target(&speed, &free));
    assert!(!grant_type4_buff_to_target(&speed, &BuffSlots { has_speed2: true, ..free }));
    assert!(!grant_type4_buff_to_target(&speed2, &BuffSlots { has_speed: true, ..free }));
    assert!(!grant_type4_buff_to_target(&speed, &BuffSlots { has_same: true, ..free }));
    let untyped = MagicType4Row { buff_type: None, ..type4_row(0, BuffKind::Other) };
    assert!(grant_type4_buff_to_target(&untyped, &BuffSlots { has_same: true, ..free }));
}

fn guard() -> CurseGuard {
    CurseGuard {
        blocks_curses: false,
        reflects_curses: false,
        cold_r: 0,
        lightning_r: 0,
        resistance_bonus: 0,
    }
}

fn debuff_target(g: CurseGuard) -> DebuffTarget {
    DebuffTarget {
        state: Some((USER_STANDING, 100)),
        blinking: false,
        in_range: true,
        caster_present: true,
        hostile: true,
        guard: g,
        caster_blocks: false,
    }
}

#[test]
fn guarded_players_are_safe() {
    let t = debuff_target(guard());
    let other = BuffKind::Other;
    assert_eq!(decide_debuff(other, 1, 0, &t, 500, 5000), Debuff::Applied);
    let blocking = debuff_target(CurseGuard { blocks_curses: true, ..guard() });
    assert_eq!(decide_debuff(other, 1, 0, &blocking, 0, 0), Debuff::Failed);
    let mirror = debuff_target(CurseGuard { reflects_curses: true, ..guard() });
    assert_eq!(decide_debuff(other, 1, 0, &mirror, 249, 0), Debuff::Reflected);
    assert_eq!(decide_debuff(other, 1, 0, &mirror, 250, 0), Debuff::Failed);
    let both = DebuffTarget { caster_blocks: true, ..mirror };
    assert_eq!(decide_debuff(other, 1, 0, &both, 0, 0), Debuff::Failed);
    assert_eq!(
        decide_debuff(other, 1, 0, &DebuffTarget { state: None, ..t }, 0, 0),
        Debuff::Lost
    );
    assert_eq!(
        decide_debuff(other, 1, 0, &DebuffTarget { in_range: false, ..t }, 0, 0),
        Debuff::Failed
    );
}

#[test]
fn resistance_wards_off_slowing() {
    let t = debuff_target(guard());
    let slow = BuffKind::Speed2;
    assert_eq!(decide_debuff(slow, 1, 100, &t, 0, 99), Debuff::Applied);
    assert_eq!(decide_debuff(slow, 1, 100, &t, 0, 100), Debuff::Resisted);
    assert_eq!(decide_debuff(slow, 1, 0, &t, 0, 0), Debuff::Resisted);
    let cold = debuff_target(CurseGuard { cold_r: 125, ..guard() });
    // 125 of 250 are 50 percent, three points each
    assert_eq!(decide_debuff(slow, 1, 200, &cold, 0, 49), Debuff::Applied);
    assert_eq!(decide_debuff(slow, 1, 200, &cold, 0, 50), Debuff::Resisted);
    assert!(resists_slow(slow, 1, 200, &cold.guard, 50));
    assert!(!resists_slow(BuffKind::Other, 1, 0, &cold.guard, 10000));
}

#[test]
fn rolls_for_debuffs_are_drawn() {
    let mut curses = Vec::new();
    for x in roll_all(200) {
        assert!((0..1000).contains(&x.curse) && (0..=10000).contains(&x.slow));
        if !curses.contains(&x.curse) {
            curses.push(x.curse);
        }
    }
    assert!(curses.len() > 20);
    let x = roll_debuff_rolls();
    assert!((0..1000).contains(&x.curse));
}

#[test]
fn party_buffs_reach_the_living() {
    let slots = BuffSlots { has_speed: false, has_speed2: false, has_same: false };
    let m = |sid: u16| PartyMember {
        sid,
        dead: false,
        placed: true,
        same_zone: true,
        in_radius: true,
        slots,
    };
    let row = MagicType4Row { radius: Some(20), ..type4_row(8, BuffKind::Other) };
    let members = vec![
        m(1),
        PartyMember { dead: true, ..m(2) },
        PartyMember { in_radius: false, ..m(3) },
        PartyMember { same_zone: false, ..m(4) },
        PartyMember { placed: false, ..m(5) },
        PartyMember { slots: BuffSlots { has_same: true, ..slots }, ..m(6) },
    ];
    assert_eq!(
        party_targets(&members, &row, 1, &slots),
        vec![
            PartyGrant { sid: 1, granted: true },
            PartyGrant { sid: 5, granted: true },
            PartyGrant { sid: 6, granted: false },
        ]
    );
    assert_eq!(
        party_targets(&Vec::new(), &row, 1, &slots),
        vec![PartyGrant { sid: 1, granted: true }]
    );
}

#[test]
fn reflected_shields_protect_from_then_on() {
    let c = AreaBuffCast {
        moral: MORAL_AREA_ENEMY,
        skill_id: 1,
        kind: BuffKind::BlockCurse,
        rate: 0,
        nation: 1,
        in_enemy_safety: false,
    };
    let p = AreaBuffPlayer {
        sid: 2,
        res_hp_type: USER_STANDING,
        hp: 100,
        authority: 1,
        nation: 2,
        blinking: false,
        in_radius: true,
        hostile: true,
        both_in_special_zone: false,
        in_own_safety: false,
        guard: CurseGuard { reflects_curses: true, ..guard() },
    };
    let open = AreaBuffPlayer { guard: guard(), ..p };
    let x = DebuffRolls { curse: 0, slow: 0 };
    let outcomes = decide_area_buffs(&c, &vec![p, p, open], false, &vec![x, x, x]);
    assert_eq!(
        outcomes,
        vec![AreaBuff::Reflected, AreaBuff::Spared, AreaBuff::Applied { ends_stealth: true }]
    );
    assert_eq!(decide_area_buff(&c, &p, true, &x), AreaBuff::Spared);
}

#[test]
fn npcs_and_bots_support_the_living() {
    let row = Some(type4_row(8, BuffKind::Other));
    assert!(apply_bot_type4_support(true, &row, false, false));
    assert!(!apply_bot_type4_support(true, &row, true, false));
    assert!(!apply_bot_type4_support(true, &row, false, true));
    assert!(!apply_bot_type4_support(false, &row, false, false));
    assert!(!apply_bot_type4_support(true, &None, false, false));
    assert!(apply_npc_type4_support(true, &row, false));
    assert!(!apply_npc_type4_support(true, &row, true));
    let pkt = build_support(10500, 7, 302313, &type4_row(8, BuffKind::Other));
    assert_eq!(pkt.opcode, WIZ_MAGIC_PROCESS);
    let m = parse_request(&pkt.data);
    assert_eq!((m.skill_id, m.caster_id, m.target_id), (302313, 10500, 7));
    assert_eq!(m.data, [0, 1, 0, 60, 0, 0, 0]);
    assert_eq!(debuff_npc(&type4_row(8, BuffKind::Freeze)), NpcDebuff::Refused);
    assert_eq!(
        debuff_npc(&type4_row(47, BuffKind::Other)),
        NpcDebuff::Applied { buff_type: 47, duration_secs: 60 }
    );
    let untyped = MagicType4Row { buff_type: None, ..type4_row(0, BuffKind::Other) };
    assert_eq!(debuff_npc(&untyped), NpcDebuff::Shown);
}

// Cures

#[test]
fn only_the_dead_are_revived() {
    let skill = MagicRow { use_item: Some(379006000), ..MagicRow::default() };
    let row = Some(MagicType5Row {
        sub_type: Some(TYPE5_RESURRECTION),
        exp_recover: Some(80),
        need_stone: Some(3),
    });
    let dead = Some((USER_DEAD, 0));
    let fee = Some(StoneFee { item_id: 379006000, count: 3, reward: 2 });
    assert_eq!(
        plan_type5(&skill, &row, dead, false),
        Type5Action::Revive { fee, experience: 80 }
    );
    assert_eq!(plan_type5(&skill, &row, Some((USER_STANDING, 5)), false), Type5Action::Failed);
    assert_eq!(plan_type5(&skill, &row, None, false), Type5Action::Failed);
    assert_eq!(plan_type5(&skill, &None, dead, false), Type5Action::Failed);
    let own = Some(MagicType5Row {
        sub_type: Some(TYPE5_RESURRECTION_SELF),
        exp_recover: None,
        need_stone: None,
    });
    assert_eq!(plan_type5(&skill, &own, dead, false), Type5Action::Ignored);
    assert_eq!(
        plan_type5(&skill, &own, dead, true),
        Type5Action::Revive { fee: None, experience: 30 }
    );
    for (kind, action) in [
        (TYPE5_REMOVE_TYPE3, Type5Action::CureDots),
        (TYPE5_REMOVE_TYPE4, Type5Action::CureDebuffs),
        (TYPE5_REMOVE_BLESS, Type5Action::RemoveBless),
        (99, Type5Action::Shown),
    ] {
        let row = Some(MagicType5Row {
            sub_type: Some(kind),
            exp_recover: None,
            need_stone: None,
        });
        assert_eq!(plan_type5(&skill, &row, Some((USER_STANDING, 5)), false), action);
    }
}

#[test]
fn stones_and_experience_are_not_made() {
    let skill = MagicRow { use_item: Some(379006000), ..MagicRow::default() };
    for n in 1..20 {
        let row = MagicType5Row { sub_type: None, exp_recover: None, need_stone: Some(n) };
        let fee = get_stone_fee(&skill, &row).unwrap();
        assert!(fee.reward <= fee.count);
    }
    let corpse = Corpse {
        max_hp: 500,
        max_mp: 100,
        zone_id: 21,
        who_killed_me: -1,
        lost_exp: 999,
    };
    assert_eq!(revive(&corpse, 100).restored_exp, 999);
    assert_eq!(revive(&corpse, 33).restored_exp, 329);
    let murdered = Corpse { who_killed_me: 5, ..corpse };
    assert_eq!(revive(&murdered, 100).restored_exp, 0);
}

// Shapes, control and teleports

#[test]
fn one_shape_at_a_time() {
    let c = TransformCaster {
        present: true,
        has_item: true,
        zone_id: ZONE_DELOS,
        hostile_zone: false,
        transformed: false,
        nation: 1,
        authority: 1,
    };
    let row = |use_: i32| {
        Some(MagicType6Row { user_skill_use: use_, nation: 0, duration: 100, transform_id: 7 })
    };
    let gate = |r: &Option<MagicType6Row>, c: &TransformCaster| {
        execute_type6(&mut effect(450001, 1), r, 450001, c)
    };
    assert!(matches!(gate(&row(1), &c), TransformGate::Done(_)));
    let shaped = TransformCaster { transformed: true, ..c };
    assert_eq!(gate(&row(1), &shaped), TransformGate::Failed);
    assert!(matches!(gate(&row(0), &c), TransformGate::Done(_)));
    let town = TransformCaster { zone_id: ZONE_MORADON, ..c };
    assert_eq!(gate(&row(0), &town), TransformGate::Failed);
    assert_eq!(gate(&row(5), &c), TransformGate::Disabled);
    assert_eq!(gate(&row(2), &c), TransformGate::Failed);
    assert_eq!(gate(&None, &c), TransformGate::Failed);
    assert_eq!(gate(&row(1), &TransformCaster { present: false, ..c }), TransformGate::Lost);
    assert_eq!(gate(&row(1), &TransformCaster { has_item: false, ..c }), TransformGate::Failed);
    let foreign = Some(MagicType6Row { nation: 2, ..row(1).unwrap() });
    assert_eq!(gate(&foreign, &c), TransformGate::Failed);
    let mut shape = Shape {
        transformation_type: 0,
        transform_id: 0,
        transform_skill_id: 0,
        started_ms: 0,
        duration_ms: 0,
        abnormal_type: 1,
        old_abnormal_type: 1,
    };
    assert_eq!(cancel_transformation(&mut shape), None);
}

#[test]
fn hidden_players_cannot_hide() {
    let row = Some(MagicType9Row { duration: Some(30), state_change: Some(1) });
    let mut c = StealthCaster {
        zone_id: 21,
        can_stealth: true,
        invisibility_type: 0,
        stealth_end_time: 0,
    };
    let mut m = effect(107645, 1);
    let s = execute_type9(&mut m, &row, 1, &mut c, 5000, 100).unwrap();
    assert_eq!((s.shows, s.buff.buff_type, s.buff.duration_secs), (Some(1), 100, 30));
    assert_eq!((c.invisibility_type, c.stealth_end_time), (1, 130));
    assert!(execute_type9(&mut m, &row, 1, &mut c, 5000, 100).is_none());
    let mut lost = StealthCaster { invisibility_type: 0, zone_id: 55, ..c };
    assert!(execute_type9(&mut m, &row, 1, &mut lost, 5000, 100).is_none());
    assert!(execute_type9(&mut m, &None, 1, &mut lost, 5000, 100).is_none());
}

#[test]
fn control_spares_players() {
    let row = Some(MagicType7Row { damage: 20, target_change: 2 });
    let at_npc = execute_type7(&mut effect(1, 10500), &row);
    assert_eq!(
        at_npc,
        Type7Plan::Done { hurts: Some(10500), damage: 20, sleeps: Some(10500) }
    );
    let at_player = execute_type7(&mut effect(1, 7), &row);
    assert_eq!(at_player, Type7Plan::Done { hurts: None, damage: 20, sleeps: None });
    assert_eq!(execute_type7(&mut effect(1, 7), &None), Type7Plan::Failed);
}

fn pair() -> WarpPair {
    WarpPair {
        present: true,
        caster_sid: 1,
        caster_zone: 21,
        target_zone: 21,
        caster_nation: 1,
        target_nation: 1,
        caster_party: Some(4),
        target_party: Some(4),
        in_radius: true,
        hostile: false,
        target_dead: false,
        target_blinking: false,
        valid_place: true,
        zone: Some(ZoneAbilities {
            teleport: true,
            teleport_friend: true,
            calling_friend: true,
            blink_zone: true,
        }),
        special_battle: false,
    }
}

#[test]
fn teleports_stay_in_the_zone() {
    let p = pair();
    assert!(type8_warp25_destination(2, 1, MORAL_PARTY, 10, &p));
    assert!(!type8_warp25_destination(1, 1, MORAL_PARTY, 10, &p));
    assert!(!type8_warp25_destination(2, 1, MORAL_PARTY, 0, &p));
    assert!(!type8_warp25_destination(2, 1, MORAL_ENEMY, 10, &p));
    assert!(!type8_warp25_destination(10500, 1, MORAL_PARTY, 10, &p));
    assert!(type8_warp27_destination(2, 1, &p));
    assert!(!type8_warp27_destination(2, 500038, &WarpPair { special_battle: true, ..p }));
    assert_eq!(type8_warp12_target(2, 109004, &p), Some(2));
    assert_eq!(type8_warp12_target(1, 109004, &p), None);
    assert_eq!(type8_warp12_target(2, 490042, &p), None);
    let away = WarpPair { target_zone: 22, ..p };
    assert!(!type8_warp25_destination(2, 1, MORAL_PARTY, 10, &away));
    assert!(!type8_warp27_destination(2, 1, &away));
    assert_eq!(type8_warp12_target(2, 109004, &away), None);
    let dead = WarpPair { target_dead: true, ..p };
    assert_eq!(type8_warp12_target(2, 109004, &dead), None);
}

#[test]
fn teleports_are_carried_out() {
    let scene = || WarpScene {
        pair: pair(),
        placed: true,
        valid_blink: true,
        home_present: true,
        monsters: vec![700, 701],
    };
    let row = |t: i32| Some(MagicType8Row { warp_type: t, radius: 10, kick_distance: 5 });
    let run = |t: i32, num: i32, target: i32, data: [i32; 7]| {
        let mut m = MagicInstance { data, ..effect(num as u32, target) };
        execute_type8(&mut m, num, MORAL_PARTY, &row(t), &scene())
    };
    assert!(matches!(run(25, 1, 2, [0; 7]), WarpOutcome::ToTarget { sid: 2 }));
    assert!(matches!(run(27, 1, 2, [0; 7]), WarpOutcome::ToTarget { sid: 2 }));
    assert!(matches!(run(12, 109004, 2, [0; 7]), WarpOutcome::ToCaster { sid: 2 }));
    assert!(matches!(run(1, 1, -1, [0; 7]), WarpOutcome::Home { sid: 1 }));
    assert!(matches!(run(29, 1, 10500, [0; 7]), WarpOutcome::Kicked { sid: 10500 }));
    assert!(matches!(run(29, 1, 2, [0; 7]), WarpOutcome::Failed));
    assert!(matches!(run(29, 1, -1, [0; 7]), WarpOutcome::Shown));
    assert!(matches!(run(99, 1, 2, [0; 7]), WarpOutcome::Failed));
    assert!(matches!(run(99, 1, 10500, [0; 7]), WarpOutcome::Kicked { sid: 10500 }));
    assert_eq!(route_type8(&row(14)), WarpRoute::Kick);
    assert_eq!(route_type8(&None), WarpRoute::Failed);
    match run(20, 1, -1, [-5, 0, 70000, 0, 0, 0, 0]) {
        WarpOutcome::Blink { place } => assert_eq!(place, (0, 65535)),
        other => panic!("{:?}", other),
    }
    let mut seen = Vec::new();
    for _ in 0..100 {
        match run(21, 490088, -1, [0; 7]) {
            WarpOutcome::Summon { monster } => {
                if !seen.contains(&monster) {
                    seen.push(monster);
                }
            }
            other => panic!("{:?}", other),
        }
    }
    seen.sort();
    assert_eq!(seen, vec![700, 701]);
    assert!(matches!(run(21, 5, -1, [0; 7]), WarpOutcome::Failed));
    assert_eq!(summon_class(492015), Some(2));
    assert_eq!(choose_monster(&Vec::new()), None);
}

#[test]
fn npcs_and_areas_keep_apart() {
    let n = AreaNpc {
        npc_id: 10500,
        npc: npc(NpcKind::Other, 1),
        monster: true,
        in_reach: true,
        base_damage: 30,
        scaled_damage: None,
    };
    let row = type3_row(-10, 0, 0);
    let caster = AreaCaster { authority: Some(1), nation: 1, zone_id: 21, skill_id: 105725 };
    let slash = type1_row(5);
    let npcs = vec![n, AreaNpc { in_reach: false, ..n }];
    let attack = area_spell(MORAL_AREA_ENEMY);
    assert_eq!(hit_npcs(&attack, &row, &attacker(0), &None, &npcs).len(), 1);
    assert!(hit_npcs(&area_spell(MORAL_AREA_ALL), &row, &attacker(0), &None, &npcs).is_empty());
    let struck = strike_npcs(&caster, &slash, &attacker(0), &None, &npcs);
    assert_eq!((struck.len(), struck[0].hp, struck[0].dies), (1, 465, false));
    let survivor = AreaNpc {
        npc: NpcTarget { manes_survival: true, ..n.npc },
        scaled_damage: Some(600),
        ..n
    };
    assert_eq!((get_reaching_damage(&n, 7), get_reaching_damage(&survivor, 7)), (7, 600));
    let hit = strike_npc(&caster, &slash, &attacker(0), &None, &survivor).unwrap();
    assert!(hit.dies && hit.deferred_death && !hit.wears_weapon);
}

/// Any whole number in a range can come up.
#[test]
fn dice_reach_their_ends() {
    let mut low = false;
    let mut high = false;
    for _ in 0..500 {
        let r = roll(1, 6);
        assert!((1..=6).contains(&r));
        low = low || r == 1;
        high = high || r == 6;
    }
    assert!(low && high);
    assert_eq!(roll(4, 4), 4);
    assert_eq!(pick_index(1), 0);
}
