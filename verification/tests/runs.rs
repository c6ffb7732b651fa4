//! Skills as a whole, from the cast to its outcome.

use ko_game::buff_cast::{
    AreaBuff, AreaBuffPlayer, BuffSlots, CurseGuard, DebuffRolls, DebuffTarget, FriendBuffState,
};
use ko_game::buff_run::{BuffOutcome, BuffScene, execute_type4, settle_type4};
use ko_game::cast::CastMemory;
use ko_game::constants::{
    MAGIC_CASTING, MAGIC_EFFECTING, MORAL_AREA_ALL, MORAL_AREA_ENEMY, MORAL_AREA_FRIEND,
    MORAL_ENEMY, MORAL_FRIEND_WITHME, MORAL_PARTY, MORAL_SELF, SKILLMAGIC_FAIL_CASTING,
    SKILLMAGIC_FAIL_NOEFFECT, USER_DEAD, USER_STANDING, ZONE_CHAOS_DUNGEON, ZONE_DELOS,
    ZONE_MORADON,
};
use ko_game::control::{StealthCaster, Type7Plan, execute_type7, execute_type9};
use ko_game::cooldown::SkillCooldowns;
use ko_game::instance::MagicInstance;
use ko_game::npc_damage::{NpcAttacker, NpcDamage, NpcKind, NpcTarget, SiegeState, Unit, UnitDamage};
use ko_game::physical::{AreaNpc, AreaPlayer, StrikeState};
use ko_game::revive::{
    Corpse, CureOutcome, CureScene, StoneFee, TYPE5_RESURRECTION, TYPE5_RESURRECTION_SELF,
    execute_type5,
};
use ko_game::route::complete_cast;
use ko_game::spell_area::SpellAreaPlayer;
use ko_game::spell_cast::{Durational, FriendHealState, HealTarget, SpellTarget, Type3Gate};
use ko_game::spell_run::{SpellAreaCaster, SpellOutcome, SpellScene, execute_type3};
use ko_game::strike::{StrikeOutcome, StrikeScene, execute_type1, execute_type2};
use ko_game::tables::{
    BuffKind, MagicRow, MagicType1Row, MagicType2Row, MagicType3Row, MagicType4Row, MagicType5Row,
    MagicType8Row, MagicType9Row,
};
use ko_game::transform::{TransformCaster, TransformGate, execute_type6};
use ko_game::victim::{SkillDamage, Victim, apply_skill_damage};
use ko_game::warp::{WarpPair, WarpScene, ZoneAbilities, check_warp, execute_type8};
use std::collections::HashMap;

fn effect(skill_id: u32, target_id: i32) -> MagicInstance {
    MagicInstance { opcode: MAGIC_EFFECTING, skill_id, caster_id: 1, target_id, data: [0; 7] }
}

fn victim(hp: i16) -> Victim {
    Victim {
        hp,
        mp: 100,
        max_mp: 200,
        authority: 1,
        mastered: false,
        master_points: 0,
        zone_id: ZONE_MORADON,
        in_party: false,
        magic_damage_reduction: 100,
        mirror_damage: false,
        mirror_damage_type: false,
        mirror_amount: 0,
        mana_absorb: 0,
        absorb_count: 0,
    }
}

fn beast(hp: i32) -> NpcTarget {
    NpcTarget {
        kind: NpcKind::Other,
        proto_id: 100,
        group: 1,
        nation: 0,
        zone_id: ZONE_MORADON,
        hp: Some(hp),
        max_hp: 500,
        juraid_monument: None,
        manes_survival: false,
    }
}

fn attacker() -> NpcAttacker {
    NpcAttacker { authority: Some(1), nation: Some(1), clan_id: 0, zone_id: ZONE_MORADON }
}

fn peace() -> SiegeState {
    SiegeState {
        castle_siege_active: false,
        castle_siege_war: false,
        castle_master_clan: 0,
        beef_active: false,
        beef_monument_dead: false,
    }
}

fn slash(add_damage: i32) -> MagicType1Row {
    MagicType1Row {
        i_num: 101001,
        hit_type: Some(0),
        hit_rate: Some(100),
        hit: Some(100),
        add_damage: Some(add_damage),
        add_dmg_perc_to_user: None,
        add_dmg_perc_to_npc: None,
    }
}

fn shot() -> MagicType2Row {
    MagicType2Row {
        i_num: 102003,
        hit_type: Some(0),
        hit_rate: Some(100),
        add_damage: Some(100),
        need_arrow: Some(1),
        add_dmg_perc_to_user: Some(50),
        add_dmg_perc_to_npc: Some(200),
    }
}

fn nearby(sid: u16) -> AreaPlayer {
    AreaPlayer {
        sid,
        res_hp_type: USER_STANDING,
        hp: 300,
        authority: 1,
        nation: 2,
        blinking: false,
        hostile: true,
        in_reach: true,
        blocks_physical: false,
        base_damage: Some(50),
    }
}

fn field() -> StrikeScene {
    StrikeScene {
        caster_present: true,
        caster_stats_known: true,
        nation: 1,
        attacker: attacker(),
        war_zone: false,
        siege: peace(),
        known: None,
        unit: Unit { bot: None, npc: Some(beast(500)), scaled_damage: None },
        unit_base_damage: 80,
        player: StrikeState {
            present: true,
            res_hp_type: USER_STANDING,
            hp: 300,
            blinking: false,
            blocks_physical: false,
            in_range: true,
            hostile: true,
            stats_known: true,
        },
        victim: victim(300),
        player_base_damage: 60,
        players: vec![nearby(2), nearby(3)],
        npcs: vec![AreaNpc {
            npc_id: 10500,
            npc: beast(75),
            monster: true,
            in_reach: true,
            base_damage: 50,
            scaled_damage: None,
        }],
    }
}

#[test]
fn melee_skills_run_through() {
    let skill = MagicRow::default();
    let row = Some(slash(30));

    let mut m = effect(101001, 10500);
    let at_npc = execute_type1(&mut m, &skill, &row, &field());
    assert!(at_npc.lands());
    match at_npc {
        StrikeOutcome::Unit(UnitDamage::Npc(NpcDamage::Dealt(w))) => {
            assert_eq!((w.damage, w.hp, w.dies), (110, 390, false));
        }
        other => panic!("unexpected {:?}", other),
    }
    assert_eq!(m.data[3], 0);

    let mut m = effect(101001, 2);
    match execute_type1(&mut m, &skill, &row, &field()) {
        StrikeOutcome::Player(SkillDamage::Dealt(w)) => {
            assert_eq!((w.dealt, w.damage, w.hp, w.dies), (70, 70, 230, false));
        }
        other => panic!("unexpected {:?}", other),
    }

    let mut m = effect(101001, -1);
    match execute_type1(&mut m, &skill, &row, &field()) {
        StrikeOutcome::Area { players, npcs } => {
            let hit: Vec<(u16, i16, i16)> =
                players.iter().map(|h| (h.sid, h.damage, h.hp)).collect();
            assert_eq!(hit, [(2, 80, 220), (3, 80, 220)]);
            assert_eq!((npcs.len(), npcs[0].damage), (1, 80));
            assert_eq!((npcs[0].hp, npcs[0].dies), (0, true));
        }
        other => panic!("unexpected {:?}", other),
    }
    assert_eq!(m.data[1], 1);

    let mut dungeon = field();
    dungeon.attacker.zone_id = ZONE_CHAOS_DUNGEON;
    dungeon.npcs[0].scaled_damage = Some(12);
    for (skill_id, fixed) in [(101001, 100), (490226, 1000)] {
        let mut m = effect(skill_id, -1);
        match execute_type1(&mut m, &skill, &row, &dungeon) {
            StrikeOutcome::Area { players, npcs } => {
                assert!(players.iter().all(|h| h.damage == fixed));
                assert_eq!(npcs[0].damage, 12);
            }
            other => panic!("unexpected {:?}", other),
        }
    }
}

#[test]
fn melee_skills_fail_and_get_lost() {
    let skill = MagicRow::default();
    let mut m = effect(101001, 2);
    let unknown = execute_type1(&mut m, &skill, &None, &field());
    assert!(matches!(unknown, StrikeOutcome::Failed));
    assert!(!unknown.lands());
    assert_eq!(m.data[3], SKILLMAGIC_FAIL_NOEFFECT);

    let mut gone = field();
    gone.player.present = false;
    let mut m = effect(101001, 2);
    let lost = execute_type1(&mut m, &skill, &Some(slash(0)), &gone);
    assert!(matches!(lost, StrikeOutcome::Lost));
    assert!(!lost.lands());
    assert_eq!(m.data, [0; 7]);

    let mut blinking = field();
    blinking.player.blinking = true;
    let mut m = effect(101001, 2);
    let failed = execute_type1(&mut m, &skill, &Some(slash(0)), &blinking);
    assert!(matches!(failed, StrikeOutcome::Failed));
}

#[test]
fn archery_skills_run_through() {
    let skill = MagicRow::default();
    let row = Some(shot());
    let mut m = effect(102003, 10500);
    match execute_type2(&mut m, &skill, &row, &field()) {
        StrikeOutcome::Unit(UnitDamage::Npc(NpcDamage::Dealt(w))) => {
            assert_eq!((w.damage, w.hp), (160, 340));
        }
        other => panic!("unexpected {:?}", other),
    }
    assert_eq!((m.data[1], m.data[3]), (1, 0));

    let mut m = effect(102003, 2);
    match execute_type2(&mut m, &skill, &row, &field()) {
        StrikeOutcome::Player(SkillDamage::Dealt(w)) => assert_eq!((w.damage, w.hp), (30, 270)),
        other => panic!("unexpected {:?}", other),
    }

    let mut m = effect(102003, -1);
    assert!(matches!(execute_type2(&mut m, &skill, &row, &field()), StrikeOutcome::Failed));
}

fn fire(first: i32, over: i32, duration: i32) -> MagicType3Row {
    MagicType3Row {
        first_damage: Some(first),
        time_damage: Some(over),
        duration: Some(duration),
        direct_type: Some(1),
        attribute: Some(1),
        radius: Some(10),
        add_dmg_perc_to_user: None,
        add_dmg_perc_to_npc: None,
    }
}

fn health() -> HealTarget {
    HealTarget { hp: 200, max_hp: 1000, mp: 50, max_mp: 100, undead: false }
}

fn bystander(sid: u16) -> SpellAreaPlayer {
    SpellAreaPlayer {
        sid,
        res_hp_type: USER_STANDING,
        hp: 500,
        max_hp: 1000,
        authority: 1,
        nation: 2,
        undead: false,
        blinking: false,
        blocks_magic: false,
        in_radius: true,
        hostile: true,
        both_in_special_zone: false,
        in_own_safety: false,
        stats_known: true,
        formula_damage: 120,
        formula_time_damage: 60,
        class_factor: None,
        class_scaled: 0,
        magic_damage_reduction: 100,
    }
}

fn storm() -> SpellScene {
    SpellScene {
        gate: Type3Gate {
            can_use_potions: true,
            item_class: 0,
            target_has_durational: false,
            event_active: false,
            event_attackable: true,
            target_in_event_zone: false,
        },
        known: Some(MagicRow { type1: Some(3), ..MagicRow::default() }),
        caster_sid: 1,
        caster: Some(health()),
        caster_res_hp_type: USER_STANDING,
        caster_placed: true,
        attacker: attacker(),
        siege: peace(),
        friend: FriendHealState {
            caster_is_monster: false,
            caster_has_hot: false,
            target: Some((USER_STANDING, 200)),
            target_has_hot: false,
        },
        friend_health: health(),
        unit: Unit { bot: None, npc: Some(beast(500)), scaled_damage: None },
        unit_formula: 150,
        unit_time_formula: 80,
        target: SpellTarget {
            state: Some((USER_STANDING, 300)),
            blinking: false,
            blocks_magic: false,
            in_range: true,
            caster_present: true,
            hostile: true,
            caster_zone: ZONE_MORADON,
            snow_battle: false,
            stats_known: true,
        },
        target_health: HealTarget { hp: 300, max_hp: 600, mp: 50, max_mp: 100, undead: false },
        victim: victim(300),
        formula: 90,
        time_formula: 40,
        class_factor: None,
        class_scaled: 0,
        area: SpellAreaCaster {
            class: 110,
            nation: 1,
            genie_active: false,
            in_enemy_safety: false,
        },
        players: vec![bystander(2)],
        bots: Vec::new(),
        npcs: vec![AreaNpc {
            npc_id: 10500,
            npc: beast(500),
            monster: true,
            in_reach: true,
            base_damage: 70,
            scaled_damage: None,
        }],
    }
}

fn spell(moral: i16) -> MagicRow {
    MagicRow { magic_num: 110545, moral: Some(moral), type1: Some(3), ..MagicRow::default() }
}

#[test]
fn spells_run_through() {
    let mut last: u64 = 0;
    let row = Some(fire(-100, -50, 20));

    let mut m = effect(110545, 10500);
    let at_npc =
        execute_type3(&mut m, &spell(MORAL_ENEMY), &row, &storm(), &mut last, 100000);
    assert!(at_npc.lands());
    match at_npc {
        SpellOutcome::Unit { hurt: UnitDamage::Npc(NpcDamage::Dealt(w)), over_time } => {
            assert_eq!((w.damage, w.hp), (150, 350));
            assert_eq!(over_time, Some(Durational { hp_per_tick: -8, ticks: 10 }));
        }
        other => panic!("unexpected {:?}", other),
    }

    let mut m = effect(110545, 2);
    match execute_type3(&mut m, &spell(MORAL_ENEMY), &row, &storm(), &mut last, 100000) {
        SpellOutcome::Player { damage: SkillDamage::Dealt(w), over_time } => {
            assert_eq!((w.damage, w.hp), (90, 210));
            assert_eq!(over_time, Some(Durational { hp_per_tick: -4, ticks: 10 }));
        }
        other => panic!("unexpected {:?}", other),
    }

    let mut m = effect(110545, -1);
    match execute_type3(&mut m, &spell(MORAL_AREA_ENEMY), &row, &storm(), &mut last, 100000) {
        SpellOutcome::Area { players, bots, caster, npcs } => {
            assert_eq!((players.len(), bots.len(), npcs.len()), (1, 0, 1));
            assert_eq!((players[0].sid, players[0].hp, players[0].heals), (2, Some(380), false));
            assert!(caster.is_none());
            assert_eq!((npcs[0].hp, npcs[0].dies), (430, false));
        }
        other => panic!("unexpected {:?}", other),
    }

    let mut rivals = storm();
    rivals.players[0].class_factor = Some(150);
    rivals.players[0].class_scaled = 180;
    rivals.npcs[0].scaled_damage = Some(25);
    let percent = Some(MagicType3Row { add_dmg_perc_to_npc: Some(300), ..fire(-100, 0, 0) });
    let mut m = effect(110545, -1);
    match execute_type3(&mut m, &spell(MORAL_AREA_ENEMY), &percent, &rivals, &mut last, 100000) {
        SpellOutcome::Area { players, npcs, .. } => {
            assert_eq!((players[0].damage, players[0].hp), (180, Some(320)));
            assert_eq!(npcs[0].damage, 25);
        }
        other => panic!("unexpected {:?}", other),
    }
    rivals.npcs[0].scaled_damage = None;
    let mut m = effect(500001, -1);
    match execute_type3(&mut m, &spell(MORAL_AREA_ALL), &percent, &rivals, &mut last, 100000) {
        SpellOutcome::Area { players, npcs, .. } => {
            assert_eq!(players[0].damage, 100);
            assert!(npcs.is_empty());
        }
        other => panic!("unexpected {:?}", other),
    }
    let mut m = effect(110545, -1);
    match execute_type3(&mut m, &spell(MORAL_AREA_ENEMY), &percent, &rivals, &mut last, 100000) {
        SpellOutcome::Area { npcs, .. } => assert_eq!(npcs[0].damage, 70),
        other => panic!("unexpected {:?}", other),
    }
}

#[test]
fn heals_run_through() {
    let mut last: u64 = 0;
    let mut m = effect(111005, 1);
    let row = Some(fire(300, 0, 0));
    let healed = execute_type3(&mut m, &spell(MORAL_SELF), &row, &storm(), &mut last, 100000);
    match healed {
        SpellOutcome::Healed { sid, heal } => {
            assert_eq!((sid, heal.hp, heal.dies), (1, Some(500), false));
        }
        other => panic!("unexpected {:?}", other),
    }
    let mut m = effect(111005, 1);
    let unknown = execute_type3(&mut m, &spell(MORAL_SELF), &None, &storm(), &mut last, 100000);
    assert!(matches!(unknown, SpellOutcome::Failed));
    assert!(!unknown.lands());
    let mut alone = storm();
    alone.caster = None;
    let lost = execute_type3(&mut m, &spell(MORAL_SELF), &row, &alone, &mut last, 100000);
    assert!(matches!(lost, SpellOutcome::Lost));
    assert!(!lost.lands());
}

fn buff_row(buff_type: i32, kind: BuffKind) -> MagicType4Row {
    MagicType4Row {
        buff_type: Some(buff_type),
        kind,
        duration: Some(600),
        radius: Some(0),
        attack_speed: None,
        speed: Some(150),
        ac: Some(40),
        ac_pct: None,
        attack: None,
        magic_attack: None,
        max_hp: None,
        max_hp_pct: None,
        max_mp: None,
        max_mp_pct: None,
        str: None,
        sta: None,
        dex: None,
        intel: None,
        cha: None,
        fire_r: None,
        cold_r: None,
        lightning_r: None,
        magic_r: None,
        disease_r: None,
        poison_r: None,
        hit_rate: None,
        avoid_rate: None,
        exp_pct: None,
        special_amount: None,
    }
}

fn free() -> BuffSlots {
    BuffSlots { has_speed: false, has_speed2: false, has_same: false }
}

fn unguarded() -> CurseGuard {
    CurseGuard {
        blocks_curses: false,
        reflects_curses: false,
        cold_r: 0,
        lightning_r: 0,
        resistance_bonus: 0,
    }
}

fn crowd() -> BuffScene {
    BuffScene {
        caster_sid: 1,
        caster_slots: free(),
        caster_present: true,
        caster_placed: true,
        flash_used: false,
        party: Vec::new(),
        friend: FriendBuffState {
            state: Some((USER_STANDING, 100)),
            oneself: false,
            caster_party: None,
            target_party: None,
            in_range: true,
            slots: free(),
        },
        enemy: DebuffTarget {
            state: Some((USER_STANDING, 100)),
            blinking: false,
            in_range: true,
            caster_present: true,
            hostile: true,
            guard: unguarded(),
            caster_blocks: false,
        },
        nation: 1,
        in_enemy_safety: false,
        players: vec![AreaBuffPlayer {
            sid: 2,
            res_hp_type: USER_STANDING,
            hp: 100,
            authority: 1,
            nation: 2,
            blinking: false,
            in_radius: true,
            hostile: true,
            both_in_special_zone: false,
            in_own_safety: false,
            guard: unguarded(),
        }],
        caster_blocks: false,
        now: 5000,
    }
}

fn buff_skill(moral: i16) -> MagicRow {
    MagicRow { magic_num: 112703, moral: Some(moral), type1: Some(4), ..MagicRow::default() }
}

#[test]
fn buffs_run_through() {
    let row = Some(buff_row(2, BuffKind::Other));
    let mut m = effect(112703, 1);
    let own = execute_type4(&mut m, &buff_skill(MORAL_SELF), &row, &crowd());
    assert!(own.lands());
    match own {
        BuffOutcome::Oneself(g) => {
            assert_eq!((g.buff.ac, g.buff.duration_secs, g.buff.is_buff), (40, 600, true));
            assert_eq!(g.saved, None);
        }
        other => panic!("unexpected {:?}", other),
    }
    assert_eq!((m.data[1], m.data[3], m.data[5]), (1, 600, 150));

    let mut m = effect(112703, 2);
    match execute_type4(&mut m, &buff_skill(MORAL_FRIEND_WITHME), &row, &crowd()) {
        BuffOutcome::Friend { sid, grant } => {
            assert_eq!((sid, grant.buff.caster_sid), (2, 1));
        }
        other => panic!("unexpected {:?}", other),
    }

    let mut m = effect(112703, 2);
    match execute_type4(&mut m, &buff_skill(MORAL_ENEMY), &row, &crowd()) {
        BuffOutcome::Enemy { sid, buff } => assert_eq!((sid, buff.is_buff), (2, false)),
        other => panic!("unexpected {:?}", other),
    }

    let mut m = effect(112703, 10500);
    match execute_type4(&mut m, &buff_skill(MORAL_ENEMY), &row, &crowd()) {
        BuffOutcome::Npc { npc_id, buff_type, duration_secs } => {
            assert_eq!((npc_id, buff_type, duration_secs), (10500, 2, 600));
        }
        other => panic!("unexpected {:?}", other),
    }

    let mut m = effect(112703, -1);
    match execute_type4(&mut m, &buff_skill(MORAL_AREA_ENEMY), &row, &crowd()) {
        BuffOutcome::Area { on_caster, players, .. } => {
            assert!(!on_caster);
            assert_eq!(players, [AreaBuff::Applied { ends_stealth: true }]);
        }
        other => panic!("unexpected {:?}", other),
    }

    let mut m = effect(112703, -1);
    match execute_type4(&mut m, &buff_skill(MORAL_AREA_FRIEND), &row, &crowd()) {
        BuffOutcome::Area { players, .. } => {
            assert!(!players.contains(&AreaBuff::Applied { ends_stealth: true }));
        }
        other => panic!("unexpected {:?}", other),
    }
}

#[test]
fn buffs_fail_are_refused_and_resisted() {
    let calm = DebuffRolls { curse: 999, slow: 5000 };
    let none: Vec<DebuffRolls> = vec![calm];
    let mut m = effect(112703, 2);
    let unknown = settle_type4(&mut m, &buff_skill(MORAL_SELF), &None, &crowd(), &calm, &none);
    assert!(matches!(unknown, BuffOutcome::Failed));
    assert_eq!(m.data[3], SKILLMAGIC_FAIL_NOEFFECT);

    let row = Some(buff_row(2, BuffKind::Other));
    let mut taken = crowd();
    taken.friend.slots.has_same = true;
    let friendly = buff_skill(MORAL_FRIEND_WITHME);
    let mut m = effect(112703, 2);
    let refused = settle_type4(&mut m, &friendly, &row, &taken, &calm, &none);
    assert!(matches!(refused, BuffOutcome::Refused));
    assert!(!refused.lands());

    let slow = Some(buff_row(40, BuffKind::Speed));
    let icy = MagicRow { icelightrate: Some(3000), ..buff_skill(MORAL_ENEMY) };
    let mut m = effect(112703, 2);
    let resisted = settle_type4(&mut m, &icy, &slow, &crowd(), &calm, &none);
    assert!(matches!(resisted, BuffOutcome::Resisted));
    assert!(resisted.lands());
    let weak = DebuffRolls { curse: 999, slow: 2999 };
    let mut m = effect(112703, 2);
    let slowed = settle_type4(&mut m, &icy, &slow, &crowd(), &weak, &none);
    assert!(matches!(slowed, BuffOutcome::Enemy { .. }));

    let mut mirror = crowd();
    mirror.enemy.guard.reflects_curses = true;
    let low = DebuffRolls { curse: 249, slow: 5000 };
    let mut m = effect(112703, 2);
    let back = settle_type4(&mut m, &buff_skill(MORAL_ENEMY), &row, &mirror, &low, &none);
    match &back {
        BuffOutcome::Reflected(buff) => assert!(!buff.is_buff),
        other => panic!("unexpected {:?}", other),
    }
    assert!(!back.lands());
    let high = DebuffRolls { curse: 250, slow: 5000 };
    let mut m = effect(112703, 2);
    let stopped = settle_type4(&mut m, &buff_skill(MORAL_ENEMY), &row, &mirror, &high, &none);
    assert!(matches!(stopped, BuffOutcome::Failed));

    let mut flash = crowd();
    let fishing = Some(buff_row(53, BuffKind::Fishing));
    let mut m = effect(500271, 1);
    let spent = settle_type4(&mut m, &buff_skill(MORAL_SELF), &fishing, &flash, &calm, &none);
    assert!(matches!(spent, BuffOutcome::Failed));
    flash.flash_used = true;
    let mut m = effect(500271, 1);
    let used = settle_type4(&mut m, &buff_skill(MORAL_SELF), &fishing, &flash, &calm, &none);
    assert!(matches!(used, BuffOutcome::Flash));
    assert_eq!(m.data[1], 1);
}

#[test]
fn resurrections_run_through() {
    let skill = MagicRow { use_item: Some(379006000), ..MagicRow::default() };
    let row = Some(MagicType5Row {
        sub_type: Some(TYPE5_RESURRECTION),
        exp_recover: Some(80),
        need_stone: Some(5),
    });
    let scene = CureScene {
        caster_sid: 1,
        target: Some((USER_DEAD, 0)),
        corpse: Corpse {
            max_hp: 900,
            max_mp: 400,
            zone_id: ZONE_MORADON,
            who_killed_me: -1,
            lost_exp: 1000,
        },
        fee_paid: true,
    };
    let mut m = effect(112001, 2);
    let back = execute_type5(&mut m, &skill, &row, &scene);
    assert!(back.lands());
    match back {
        CureOutcome::Revived { sid, fee, revival } => {
            assert_eq!(sid, 2);
            assert_eq!(fee, Some(StoneFee { item_id: 379006000, count: 5, reward: 3 }));
            assert_eq!((revival.hp, revival.mp, revival.restored_exp), (900, 0, 800));
        }
        other => panic!("unexpected {:?}", other),
    }
    assert_eq!(m.data[1], 1);

    let poor = CureScene { fee_paid: false, ..scene };
    let mut m = effect(112001, 2);
    let failed = execute_type5(&mut m, &skill, &row, &poor);
    assert_eq!(failed, CureOutcome::Failed);
    assert!(!failed.lands());
    assert_eq!(m.data[3], SKILLMAGIC_FAIL_NOEFFECT);

    let oneself = Some(MagicType5Row {
        sub_type: Some(TYPE5_RESURRECTION_SELF),
        exp_recover: None,
        need_stone: None,
    });
    let mut m = effect(112001, 2);
    let ignored = execute_type5(&mut m, &skill, &oneself, &scene);
    assert_eq!(ignored, CureOutcome::Ignored);
    assert!(ignored.lands());
    assert_eq!(m.data, [0; 7]);
}

fn memory() -> CastMemory {
    CastMemory {
        skill_cooldowns: SkillCooldowns::new(),
        type_cooldowns: HashMap::new(),
        last_type2_skill_id: 0,
        last_type2_cast_time: 0,
        cast_failed: false,
    }
}

#[test]
fn casts_that_do_not_land_leave_nothing_behind() {
    let skill = MagicRow {
        type1: Some(3),
        recast_time: Some(10),
        use_item: Some(389010000),
        ..MagicRow::default()
    };
    let mut kept = memory();
    let none = complete_cast(&mut kept, 110545, &skill, false, false, false, 50000);
    assert_eq!(none, None);
    assert_eq!(kept.skill_cooldowns.count(), 0);
    assert!(kept.type_cooldowns.is_empty());

    let receipt = complete_cast(&mut kept, 110545, &skill, false, false, true, 50000).unwrap();
    assert_eq!(receipt.take_item, Some(389010000));
    assert!(kept.skill_cooldowns.on_cooldown(110545, 50899));
    assert!(!kept.skill_cooldowns.on_cooldown(110545, 50900));
    assert!(kept.type_cooldowns.contains_key(&3));
}

#[test]
fn checked_teleports_take_place() {
    let zone = ZoneAbilities {
        teleport: true,
        teleport_friend: true,
        calling_friend: true,
        blink_zone: true,
    };
    let pair = WarpPair {
        present: true,
        caster_sid: 1,
        caster_zone: ZONE_MORADON,
        target_zone: ZONE_MORADON,
        caster_nation: 1,
        target_nation: 1,
        caster_party: Some(7),
        target_party: Some(7),
        in_radius: true,
        hostile: false,
        target_dead: false,
        target_blinking: false,
        valid_place: true,
        zone: Some(zone),
        special_battle: false,
    };
    for warp_type in [25, 27, 12] {
        let row = Some(MagicType8Row { warp_type, radius: 20, kick_distance: 0 });
        let scene = |p: WarpPair| WarpScene {
            pair: p,
            placed: true,
            valid_blink: false,
            home_present: false,
            monsters: Vec::new(),
        };
        assert!(check_warp(2, 109004, MORAL_PARTY, &row, &pair));
        let mut m = effect(109004, 2);
        assert!(execute_type8(&mut m, 109004, MORAL_PARTY, &row, &scene(pair)).lands());

        let away = WarpPair { target_zone: ZONE_DELOS, ..pair };
        assert!(!check_warp(2, 109004, MORAL_PARTY, &row, &away));
        let mut m = effect(109004, 2);
        assert!(!execute_type8(&mut m, 109004, MORAL_PARTY, &row, &scene(away)).lands());
        assert_eq!(m.data[3], SKILLMAGIC_FAIL_NOEFFECT);
    }
    let home = Some(MagicType8Row { warp_type: 1, radius: 0, kick_distance: 0 });
    let nobody = WarpPair { present: false, ..pair };
    assert!(check_warp(-1, 490001, MORAL_SELF, &home, &nobody));
}

#[test]
fn failures_are_noted_in_the_cast() {
    let mut m = effect(450001, 1);
    let caster = TransformCaster {
        present: true,
        has_item: false,
        zone_id: ZONE_DELOS,
        hostile_zone: false,
        transformed: false,
        nation: 1,
        authority: 1,
    };
    assert_eq!(execute_type6(&mut m, &None, 450001, &caster), TransformGate::Failed);
    assert_eq!(m.data[3], SKILLMAGIC_FAIL_NOEFFECT);

    let mut m = effect(490001, 10500);
    assert_eq!(execute_type7(&mut m, &None), Type7Plan::Failed);
    assert_eq!(m.data[3], SKILLMAGIC_FAIL_NOEFFECT);

    let mut m = effect(101700, 1);
    m.opcode = MAGIC_CASTING;
    let mut hidden = StealthCaster {
        zone_id: ZONE_MORADON,
        can_stealth: true,
        invisibility_type: 1,
        stealth_end_time: 0,
    };
    let row = Some(MagicType9Row { duration: Some(30), state_change: Some(1) });
    assert!(execute_type9(&mut m, &row, 1, &mut hidden, 5000, 100).is_none());
    assert_eq!(m.data[3], SKILLMAGIC_FAIL_CASTING);
}

#[test]
fn huge_mana_shields_wrap_around() {
    let shield = Victim { mana_absorb: 255, max_mp: 30000, ..victim(32000) };
    match apply_skill_damage(Some(1), &None, &shield, 32000) {
        SkillDamage::Dealt(w) => {
            assert_eq!((w.damage, w.hp, w.mp), (15936, 16064, 16164));
        }
        SkillDamage::Shown => panic!("no damage"),
    }
}
