//! Waiting times: per skill, and per kind of magic.
//!
//! All times are milliseconds on one clock.

use std::collections::HashMap;

use crate::skills::{is_mage_armor_skill, is_staff_skill, mage_armor_skill, staff_skill};
use crate::tables::MagicRow;
use vstd::prelude::*;

verus! {

broadcast use vstd::std_specs::hash::group_hash_axioms;

// ---------------------------------------------------------------------------------------------
// Skill cooldowns
// ---------------------------------------------------------------------------------------------

/// Above this many remembered skills, those that may be cast again are forgotten.
pub const COOLDOWN_LIMIT: usize = 50;

/// The map that a list of key/value pairs stands for.
spec fn pairs_to_map(s: Seq<(u32, u64)>) -> Map<u32, u64>
    decreases s.len(),
{
    if s.len() == 0 {
        Map::empty()
    } else {
        pairs_to_map(s.drop_last()).insert(s.last().0, s.last().1)
    }
}

/// Whether no two pairs share a key.
spec fn keys_distinct(s: Seq<(u32, u64)>) -> bool {
    forall|i: int, j: int| 0 <= i < j < s.len() ==> (#[trigger] s[i]).0 != (#[trigger] s[j]).0
}

/// What the map of a list holds, entry by entry.
proof fn lemma_pairs(s: Seq<(u32, u64)>)
    requires
        keys_distinct(s),
    ensures
        forall|k: u32| #[trigger]
            pairs_to_map(s).dom().contains(k) ==> exists|i: int|
                0 <= i < s.len() && (#[trigger] s[i]).0 == k,
        forall|i: int|
            0 <= i < s.len() ==> pairs_to_map(s).dom().contains((#[trigger] s[i]).0)
                && pairs_to_map(s)[s[i].0] == s[i].1,
        pairs_to_map(s).dom().finite(),
        pairs_to_map(s).dom().len() == s.len(),
    decreases s.len(),
{
    if s.len() > 0 {
        let front = s.drop_last();
        assert forall|i: int, j: int| 0 <= i < j < front.len() implies (#[trigger] front[i]).0 != (
        #[trigger] front[j]).0 by {
            assert(front[i] == s[i] && front[j] == s[j]);
        }
        lemma_pairs(front);
        let last = s.last();
        if pairs_to_map(front).dom().contains(last.0) {
            let i = choose|i: int| 0 <= i < front.len() && (#[trigger] front[i]).0 == last.0;
            assert(s[i].0 != s[s.len() - 1].0);
        }
        assert forall|k: u32| #[trigger] pairs_to_map(s).dom().contains(k) implies exists|i: int|
            0 <= i < s.len() && (#[trigger] s[i]).0 == k by {
            if k == last.0 {
                assert(s[s.len() - 1].0 == k);
            } else {
                assert(pairs_to_map(front).dom().contains(k));
                let i = choose|i: int| 0 <= i < front.len() && (#[trigger] front[i]).0 == k;
                assert(s[i].0 == k);
            }
        }
        assert forall|i: int| 0 <= i < s.len() implies pairs_to_map(s).dom().contains(
            (#[trigger] s[i]).0,
        ) && pairs_to_map(s)[s[i].0] == s[i].1 by {
            if i < s.len() - 1 {
                assert(front[i] == s[i]);
                assert(s[i].0 != s[s.len() - 1].0);
            }
        }
    }
}

/// The part of a set of expiry times that lies after `now`.
pub open spec fn unexpired(m: Map<u32, u64>, now: u64) -> Map<u32, u64> {
    Map::new(|k: u32| m.dom().contains(k) && now < m[k], |k: u32| m[k])
}

/// When each skill may be cast again. Its view maps skills to times.
pub struct SkillCooldowns {
    entries: Vec<(u32, u64)>,
}

impl View for SkillCooldowns {
    type V = Map<u32, u64>;

    closed spec fn view(&self) -> Map<u32, u64> {
        pairs_to_map(self.entries@)
    }
}

impl SkillCooldowns {
    #[verifier::type_invariant]
    spec fn distinct(self) -> bool {
        keys_distinct(self.entries@)
    }

    /// No skill is waiting.
    pub fn new() -> (c: SkillCooldowns)
        ensures
            c@ == Map::<u32, u64>::empty(),
    {
        SkillCooldowns { entries: Vec::new() }
    }

    /// How many skills are remembered.
    pub fn count(&self) -> (n: usize)
        ensures
            n == self@.dom().len(),
    {
        proof {
            use_type_invariant(self);
            lemma_pairs(self.entries@);
        }
        self.entries.len()
    }

    /// Whether a skill is still waiting at `now`.
    pub fn on_cooldown(&self, skill_id: u32, now: u64) -> (r: bool)
        ensures
            r == (self@.dom().contains(skill_id) && now < self@[skill_id]),
    {
        proof {
            use_type_invariant(self);
            lemma_pairs(self.entries@);
        }
        let mut i: usize = 0;
        while i < self.entries.len()
            invariant
                0 <= i <= self.entries@.len(),
                keys_distinct(self.entries@),
                forall|j: int| 0 <= j < i ==> (#[trigger] self.entries@[j]).0 != skill_id,
            decreases self.entries@.len() - i,
        {
            let (key, expiry) = self.entries[i];
            if key == skill_id {
                proof {
                    lemma_pairs(self.entries@);
                    assert(self.entries@[i as int].0 == skill_id);
                }
                return now < expiry;
            }
            i = i + 1;
        }
        proof {
            lemma_pairs(self.entries@);
        }
        false
    }

    /// Let a skill wait until `expiry`.
    pub fn insert(&mut self, skill_id: u32, expiry: u64)
        ensures
            final(self)@ == old(self)@.insert(skill_id, expiry),
    {
        proof {
            use_type_invariant(&*self);
            lemma_pairs(self.entries@);
        }
        let ghost before = self.entries@;
        let mut kept: Vec<(u32, u64)> = Vec::new();
        let mut i: usize = 0;
        while i < self.entries.len()
            invariant
                0 <= i <= self.entries@.len(),
                self.entries@ == before,
                keys_distinct(before),
                keys_distinct(kept@),
                forall|j: int|
                    0 <= j < kept@.len() ==> (#[trigger] kept@[j]).0 != skill_id && exists|m: int|
                        0 <= m < i && #[trigger] before[m] == kept@[j],
                forall|j: int|
                    0 <= j < i && (#[trigger] before[j]).0 != skill_id ==> exists|m: int|
                        0 <= m < kept@.len() && #[trigger] kept@[m] == before[j],
            decreases self.entries@.len() - i,
        {
            let pair: (u32, u64) = self.entries[i];
            let ghost kept_before = kept@;
            if pair.0 != skill_id {
                kept.push(pair);
                assert forall|j: int| 0 <= j < kept@.len() implies (#[trigger] kept@[j]).0
                    != skill_id && exists|m: int| 0 <= m < i + 1 && #[trigger] before[m] == kept@[j] by {
                    if j < kept_before.len() {
                        assert(kept@[j] == kept_before[j]);
                        let m = choose|m: int|
                            0 <= m < i && #[trigger] before[m] == kept_before[j];
                        assert(before[m] == kept@[j]);
                    } else {
                        assert(before[i as int] == kept@[j]);
                    }
                }
                assert forall|a: int, b: int| 0 <= a < b < kept@.len() implies (#[trigger] kept@[a]).0
                    != (#[trigger] kept@[b]).0 by {
                    if b == kept_before.len() {
                        let m = choose|m: int|
                            0 <= m < i && #[trigger] before[m] == kept_before[a];
                        assert(kept@[a] == kept_before[a]);
                        assert(before[m].0 != before[i as int].0);
                    } else {
                        assert(kept@[a] == kept_before[a] && kept@[b] == kept_before[b]);
                    }
                }
            }
            assert forall|j: int| 0 <= j < i + 1 && (#[trigger] before[j]).0 != skill_id implies exists|
                m: int,
            | 0 <= m < kept@.len() && #[trigger] kept@[m] == before[j] by {
                if j < i {
                    let m = choose|m: int|
                        0 <= m < kept_before.len() && #[trigger] kept_before[m] == before[j];
                    assert(kept@[m] == before[j]);
                } else {
                    assert(kept@[kept_before.len() as int] == before[j]);
                }
            }
            i = i + 1;
        }
        let ghost others = kept@;
        kept.push((skill_id, expiry));
        let ghost all = kept@;
        proof {
            assert forall|a: int, b: int| 0 <= a < b < all.len() implies (#[trigger] all[a]).0 != (
            #[trigger] all[b]).0 by {
                if b < others.len() {
                    assert(all[a] == others[a] && all[b] == others[b]);
                } else {
                    assert(all[a] == others[a]);
                }
            }
            lemma_pairs(before);
            lemma_pairs(all);
            let with_new = pairs_to_map(before).insert(skill_id, expiry);
            assert(all[others.len() as int] == (skill_id, expiry));
            assert forall|k: u32| pairs_to_map(all).dom().contains(k) == with_new.dom().contains(
                k,
            ) by {
                if pairs_to_map(all).dom().contains(k) && k != skill_id {
                    let j = choose|j: int| 0 <= j < all.len() && (#[trigger] all[j]).0 == k;
                    assert(all[j] == others[j]);
                    let m = choose|m: int|
                        0 <= m < before.len() && #[trigger] before[m] == others[j];
                    assert(before[m].0 == k);
                }
                if with_new.dom().contains(k) && k != skill_id {
                    let m = choose|m: int| 0 <= m < before.len() && (#[trigger] before[m]).0 == k;
                    let j = choose|j: int| 0 <= j < others.len() && #[trigger] others[j]
                        == before[m];
                    assert(all[j].0 == k);
                }
            }
            assert forall|k: u32| with_new.dom().contains(k) implies pairs_to_map(all)[k]
                == with_new[k] by {
                if k != skill_id {
                    let m = choose|m: int| 0 <= m < before.len() && (#[trigger] before[m]).0 == k;
                    let j = choose|j: int| 0 <= j < others.len() && #[trigger] others[j]
                        == before[m];
                    assert(all[j] == before[m]);
                }
            }
            assert(pairs_to_map(all) =~= with_new);
        }
        self.entries = kept;
    }

    /// Let a skill wait until `expiry`. Where more skills than the limit are then remembered,
    /// those that have waited long enough at `now` are forgotten.
    pub fn set(&mut self, skill_id: u32, expiry: u64, now: u64)
        ensures
            ({
                let with_new = old(self)@.insert(skill_id, expiry);
                final(self)@ == if with_new.dom().len() > COOLDOWN_LIMIT {
                    unexpired(with_new, now)
                } else {
                    with_new
                }
            }),
    {
        self.insert(skill_id, expiry);
        if self.count() > COOLDOWN_LIMIT {
            proof {
                use_type_invariant(&*self);
            }
            let live = live_pairs(&self.entries, now);
            self.entries = live;
        }
    }
}

/// A list with exactly the pairs of `all` that lie after `now` stands for the unexpired part.
proof fn lemma_live(all: Seq<(u32, u64)>, live: Seq<(u32, u64)>, now: u64)
    requires
        keys_distinct(all),
        keys_distinct(live),
        forall|j: int|
            0 <= j < live.len() ==> now < (#[trigger] live[j]).1 && exists|m: int|
                0 <= m < all.len() && #[trigger] all[m] == live[j],
        forall|j: int|
            0 <= j < all.len() && now < (#[trigger] all[j]).1 ==> exists|m: int|
                0 <= m < live.len() && #[trigger] live[m] == all[j],
    ensures
        pairs_to_map(live) == unexpired(pairs_to_map(all), now),
{
    lemma_pairs(all);
    lemma_pairs(live);
    let whole = pairs_to_map(all);
    let part = pairs_to_map(live);
    assert forall|k: u32| #[trigger] part.dom().contains(k) implies whole.dom().contains(k) && now
        < whole[k] && part[k] == whole[k] by {
        let j = choose|j: int| 0 <= j < live.len() && (#[trigger] live[j]).0 == k;
        let m = choose|m: int| 0 <= m < all.len() && #[trigger] all[m] == live[j];
        assert(all[m].0 == k);
    }
    assert forall|k: u32| whole.dom().contains(k) && now < whole[k] implies part.dom().contains(
        k,
    ) by {
        let m = choose|m: int| 0 <= m < all.len() && (#[trigger] all[m]).0 == k;
        let j = choose|j: int| 0 <= j < live.len() && #[trigger] live[j] == all[m];
        assert(live[j].0 == k);
    }
    assert(part =~= unexpired(whole, now));
}

/// The pairs whose time lies after `now`, in their order.
fn live_pairs(all: &Vec<(u32, u64)>, now: u64) -> (live: Vec<(u32, u64)>)
    requires
        keys_distinct(all@),
    ensures
        keys_distinct(live@),
        pairs_to_map(live@) == unexpired(pairs_to_map(all@), now),
{
    let mut live: Vec<(u32, u64)> = Vec::new();
    let mut i: usize = 0;
    while i < all.len()
        invariant
            0 <= i <= all@.len(),
            keys_distinct(all@),
            keys_distinct(live@),
            forall|j: int|
                0 <= j < live@.len() ==> now < (#[trigger] live@[j]).1 && exists|m: int|
                    0 <= m < i && #[trigger] all@[m] == live@[j],
            forall|j: int|
                0 <= j < i && now < (#[trigger] all@[j]).1 ==> exists|m: int|
                    0 <= m < live@.len() && #[trigger] live@[m] == all@[j],
        decreases all@.len() - i,
    {
        let pair: (u32, u64) = all[i];
        let ghost before = live@;
        if now < pair.1 {
            live.push(pair);
            assert forall|j: int| 0 <= j < live@.len() implies now < (#[trigger] live@[j]).1
                && exists|m: int| 0 <= m < i + 1 && #[trigger] all@[m] == live@[j] by {
                if j < before.len() {
                    assert(live@[j] == before[j]);
                    let m = choose|m: int| 0 <= m < i && #[trigger] all@[m] == before[j];
                    assert(all@[m] == live@[j]);
                } else {
                    assert(all@[i as int] == live@[j]);
                }
            }
            assert forall|a: int, b: int| 0 <= a < b < live@.len() implies (#[trigger] live@[a]).0
                != (#[trigger] live@[b]).0 by {
                if b == before.len() {
                    let m = choose|m: int| 0 <= m < i && #[trigger] all@[m] == before[a];
                    assert(live@[a] == before[a]);
                    assert(all@[m].0 != all@[i as int].0);
                } else {
                    assert(live@[a] == before[a] && live@[b] == before[b]);
                }
            }
        }
        assert forall|j: int| 0 <= j < i + 1 && now < (#[trigger] all@[j]).1 implies exists|m: int|
            0 <= m < live@.len() && #[trigger] live@[m] == all@[j] by {
            if j < i {
                let m = choose|m: int| 0 <= m < before.len() && #[trigger] before[m] == all@[j];
                assert(live@[m] == all@[j]);
            } else {
                assert(live@[before.len() as int] == all@[j]);
            }
        }
        i = i + 1;
    }
    proof {
        lemma_live(all@, live@, now);
    }
    live
}

/// Forgetting expired entries changes no answer: a skill is waiting, now or at any later time,
/// exactly if it was before.
pub proof fn law_cleanup_keeps_cooldowns(m: Map<u32, u64>, now: u64, later: u64, skill_id: u32)
    requires
        now <= later,
    ensures
        (unexpired(m, now).dom().contains(skill_id) && later < unexpired(m, now)[skill_id]) == (
        m.dom().contains(skill_id) && later < m[skill_id]),
{
}

/// Each skill waits on its own: setting one skill's time leaves every other skill's answer as
/// it was, whether or not old entries were forgotten.
pub proof fn law_cooldowns_are_independent(
    m: Map<u32, u64>,
    skill_id: u32,
    expiry: u64,
    now: u64,
    other: u32,
)
    requires
        other != skill_id,
    ensures
        ({
            let with_new = m.insert(skill_id, expiry);
            let kept = unexpired(with_new, now);
            let waiting = m.dom().contains(other) && now < m[other];
            &&& (with_new.dom().contains(other) && now < with_new[other]) == waiting
            &&& (kept.dom().contains(other) && now < kept[other]) == waiting
        }),
{
}

/// The waiting time after a cast, in milliseconds: 90 for each unit of the skill's recast time,
/// with a floor for buffs from consumable scrolls and for offensive survival magic.
pub open spec fn recast_ms(recast_time: i16, scroll_buff: bool, manes_offensive: bool) -> u64 {
    let configured = (if recast_time > 0 { recast_time as int } else { 0 }) * 90;
    if scroll_buff {
        (if configured > 1000 { configured } else { 1000 }) as u64
    } else if manes_offensive {
        (if configured > 900 { configured } else { 900 }) as u64
    } else {
        configured as u64
    }
}

/// Compute the waiting time after a cast.
pub fn compute_recast_ms(recast_time: i16, scroll_buff: bool, manes_offensive: bool) -> (r: u64)
    ensures
        r == recast_ms(recast_time, scroll_buff, manes_offensive),
{
    let configured: u64 = if recast_time > 0 {
        recast_time as u64 * 90
    } else {
        0
    };
    if scroll_buff {
        configured.max(1000)
    } else if manes_offensive {
        configured.max(900)
    } else {
        configured
    }
}

// ---------------------------------------------------------------------------------------------
// Cooldowns per kind of magic
// ---------------------------------------------------------------------------------------------

/// Least time between two casts of one kind.
pub const TYPE_COOLDOWN_DEFAULT_MS: u64 = 575;

/// The same for an instant melee or archery skill.
pub const TYPE_COOLDOWN_INSTANT_MELEE_MS: u64 = 650;

/// The same for an instant melee or archery skill that was just refused.
pub const TYPE_COOLDOWN_CATCH_MS: u64 = 400;

/// Least time between two staff attacks.
pub const PLAYER_SKILL_REQUEST_INTERVAL_MS: u64 = 800;

/// After this time an entry no longer counts.
pub const TYPE_COOLDOWN_STALE_MS: u64 = 2000;

/// How far back a passed check puts its entry.
pub const TYPE_COOLDOWN_RESET_MS: u64 = 10000;

/// When a kind of magic was last cast, and whether a cast was refused since.
#[derive(Clone, Copy, Debug, PartialEq, Eq, Structural)]
pub struct TypeCooldown {
    pub time: u64,
    pub t_catch: bool,
}

/// Milliseconds from `since` to `now`, 0 where `since` lies ahead.
pub open spec fn elapsed(now: u64, since: u64) -> u64 {
    if now >= since {
        (now - since) as u64
    } else {
        0
    }
}

/// The time that must have passed since the entry, by kind.
pub open spec fn type_threshold(
    skill_id: u32,
    check_type: u8,
    other_type: u8,
    cast_time: i16,
    t_catch: bool,
) -> u64 {
    if staff_skill(skill_id) {
        PLAYER_SKILL_REQUEST_INTERVAL_MS
    } else if check_type == 4 {
        0
    } else if (check_type == 1 || other_type == 1) && cast_time == 0 {
        if t_catch {
            TYPE_COOLDOWN_CATCH_MS
        } else {
            TYPE_COOLDOWN_INSTANT_MELEE_MS
        }
    } else {
        TYPE_COOLDOWN_DEFAULT_MS
    }
}

/// Whether the entry of one kind of magic blocks a cast at `now`.
pub open spec fn type_blocked(
    entries: Map<u8, TypeCooldown>,
    skill_id: u32,
    check_type: u8,
    other_type: u8,
    cast_time: i16,
    existspeed: bool,
    now: u64,
) -> bool {
    &&& entries.dom().contains(check_type)
    &&& !existspeed
    &&& elapsed(now, entries[check_type].time) < type_threshold(
        skill_id,
        check_type,
        other_type,
        cast_time,
        entries[check_type].t_catch,
    )
}

/// The entries after a check: a refused cast restarts the wait and is remembered, a passed
/// check puts the entry far back. A kind that was never cast gets no entry.
pub open spec fn entries_after_check(
    entries: Map<u8, TypeCooldown>,
    check_type: u8,
    blocked: bool,
    now: u64,
) -> Map<u8, TypeCooldown> {
    if !entries.dom().contains(check_type) {
        entries
    } else if blocked {
        entries.insert(check_type, TypeCooldown { time: now, t_catch: true })
    } else {
        entries.insert(
            check_type,
            TypeCooldown { time: (now - TYPE_COOLDOWN_RESET_MS) as u64, t_catch: false },
        )
    }
}

/// Check one kind of magic; `true` where it is too early to cast it again.
pub fn check_single_type_cooldown(
    entries: &mut HashMap<u8, TypeCooldown>,
    skill_id: u32,
    check_type: u8,
    other_type: u8,
    cast_time: i16,
    existspeed: bool,
    now: u64,
) -> (blocked: bool)
    requires
        now >= TYPE_COOLDOWN_RESET_MS,
    ensures
        blocked == type_blocked(
            old(entries)@,
            skill_id,
            check_type,
            other_type,
            cast_time,
            existspeed,
            now,
        ),
        final(entries)@ == entries_after_check(old(entries)@, check_type, blocked, now),
{
    let found: Option<TypeCooldown> = match entries.get(&check_type) {
        Some(e) => Some(*e),
        None => None,
    };
    let entry: TypeCooldown = match found {
        Some(e) => e,
        None => {
            return false;
        },
    };
    let passed: u64 = if now >= entry.time {
        now - entry.time
    } else {
        0
    };
    let mut blocked: bool = false;
    if passed < TYPE_COOLDOWN_STALE_MS && !existspeed {
        let staff: bool = is_staff_skill(skill_id);
        let mut threshold: u64 = TYPE_COOLDOWN_DEFAULT_MS;
        if (check_type == 1 || other_type == 1) && cast_time == 0 && !staff {
            threshold = if entry.t_catch {
                TYPE_COOLDOWN_CATCH_MS
            } else {
                TYPE_COOLDOWN_INSTANT_MELEE_MS
            };
        }
        if check_type == 4 && !staff {
            threshold = 0;
        }
        if staff && passed < PLAYER_SKILL_REQUEST_INTERVAL_MS {
            blocked = true;
        } else if threshold > 0 && passed < threshold {
            blocked = true;
        }
    }
    if blocked {
        entries.insert(check_type, TypeCooldown { time: now, t_catch: true });
    } else {
        entries.insert(
            check_type,
            TypeCooldown { time: now - TYPE_COOLDOWN_RESET_MS, t_catch: false },
        );
    }
    blocked
}

/// The kind under which a skill's first type is remembered: damage over time has a kind of its
/// own.
pub open spec fn type_key(type1: u8, t_1: i32) -> u8 {
    if type1 == 3 && t_1 == -1 {
        10
    } else {
        type1
    }
}

/// Whether a skill's two kinds let it through. The bypass for attack speed buffs goes with the
/// first kind alone; the second is checked only where the first has passed.
pub open spec fn skill_types_blocked(
    entries: Map<u8, TypeCooldown>,
    skill: MagicRow,
    type1: u8,
    type2: u8,
    existspeed: bool,
    now: u64,
) -> bool {
    let skill_id = skill.magic_num as u32;
    let cast_time = crate::arith::or_i16(skill.cast_time, 0);
    let key = type_key(type1, crate::arith::or_i32(skill.t_1, 0));
    let first = key != 0 && type_blocked(
        entries,
        skill_id,
        key,
        type2,
        cast_time,
        existspeed,
        now,
    );
    let between = if key != 0 {
        entries_after_check(entries, key, first, now)
    } else {
        entries
    };
    &&& !mage_armor_skill(skill_id)
    &&& first || (type2 != 0 && type_blocked(
        between,
        skill_id,
        type2,
        type1,
        cast_time,
        false,
        now,
    ))
}

/// The entries after both kinds of a skill have been checked.
pub open spec fn entries_after_skill_check(
    entries: Map<u8, TypeCooldown>,
    skill: MagicRow,
    type1: u8,
    type2: u8,
    existspeed: bool,
    now: u64,
) -> Map<u8, TypeCooldown> {
    let skill_id = skill.magic_num as u32;
    let cast_time = crate::arith::or_i16(skill.cast_time, 0);
    let key = type_key(type1, crate::arith::or_i32(skill.t_1, 0));
    let first = key != 0 && type_blocked(
        entries,
        skill_id,
        key,
        type2,
        cast_time,
        existspeed,
        now,
    );
    let between = if key != 0 {
        entries_after_check(entries, key, first, now)
    } else {
        entries
    };
    if mage_armor_skill(skill_id) {
        entries
    } else if first || type2 == 0 {
        between
    } else {
        entries_after_check(
            between,
            type2,
            type_blocked(between, skill_id, type2, type1, cast_time, false, now),
            now,
        )
    }
}

/// Check both kinds of a skill; `true` where it is too early to cast it.
pub fn check_type_cooldown(
    entries: &mut HashMap<u8, TypeCooldown>,
    skill: &MagicRow,
    type1: u8,
    type2: u8,
    existspeed: bool,
    now: u64,
) -> (blocked: bool)
    requires
        now >= TYPE_COOLDOWN_RESET_MS,
    ensures
        blocked == skill_types_blocked(old(entries)@, *skill, type1, type2, existspeed, now),
        final(entries)@ == entries_after_skill_check(
            old(entries)@,
            *skill,
            type1,
            type2,
            existspeed,
            now,
        ),
{
    let skill_id: u32 = skill.magic_num as u32;
    let cast_time: i16 = skill.cast_time.unwrap_or(0);
    let t_1: i32 = skill.t_1.unwrap_or(0);
    if is_mage_armor_skill(skill_id) {
        return false;
    }
    let key: u8 = if type1 == 3 && t_1 == -1 {
        10
    } else {
        type1
    };
    if key != 0 && check_single_type_cooldown(
        entries,
        skill_id,
        key,
        type2,
        cast_time,
        existspeed,
        now,
    ) {
        return true;
    }
    if type2 != 0 && check_single_type_cooldown(
        entries,
        skill_id,
        type2,
        type1,
        cast_time,
        false,
        now,
    ) {
        return true;
    }
    false
}

/// The entries after a successful cast: both kinds are remembered from `now` on.
pub open spec fn entries_after_cast(
    entries: Map<u8, TypeCooldown>,
    type1: u8,
    type2: u8,
    t_1: i32,
    now: u64,
) -> Map<u8, TypeCooldown> {
    let fresh = TypeCooldown { time: now, t_catch: false };
    let first = if type1 != 0 {
        entries.insert(type_key(type1, t_1), fresh)
    } else {
        entries
    };
    if type2 != 0 {
        first.insert(type2, fresh)
    } else {
        first
    }
}

/// Remember a successful cast under both its kinds.
pub fn record_type_cooldowns(
    entries: &mut HashMap<u8, TypeCooldown>,
    type1: u8,
    type2: u8,
    t_1: i32,
    now: u64,
)
    ensures
        final(entries)@ == entries_after_cast(old(entries)@, type1, type2, t_1, now),
{
    if type1 != 0 {
        let key: u8 = if type1 == 3 && t_1 == -1 {
            10
        } else {
            type1
        };
        entries.insert(key, TypeCooldown { time: now, t_catch: false });
    }
    if type2 != 0 {
        entries.insert(type2, TypeCooldown { time: now, t_catch: false });
    }
}

/// A cast that was refused makes the next one wait again: right after a refusal the same
/// instant skill is refused until the shorter catch time has passed.
pub proof fn law_refusal_restarts_the_wait(
    entries: Map<u8, TypeCooldown>,
    skill_id: u32,
    other_type: u8,
    now: u64,
    later: u64,
)
    requires
        !staff_skill(skill_id),
        now <= later,
        type_blocked(entries, skill_id, 1, other_type, 0, false, now),
    ensures
        type_blocked(
            entries_after_check(entries, 1, true, now),
            skill_id,
            1,
            other_type,
            0,
            false,
            later,
        ) == (later - now < TYPE_COOLDOWN_CATCH_MS),
{
}

/// A check that passes frees its kind: at the same moment no skill of that kind is blocked.
pub proof fn law_passed_check_frees_the_kind(
    entries: Map<u8, TypeCooldown>,
    skill_id: u32,
    check_type: u8,
    other_type: u8,
    cast_time: i16,
    now: u64,
    later: u64,
)
    requires
        TYPE_COOLDOWN_RESET_MS <= now <= later,
    ensures
        !type_blocked(
            entries_after_check(entries, check_type, false, now),
            skill_id,
            check_type,
            other_type,
            cast_time,
            false,
            later,
        ),
{
}

/// Buffs of one kind never wait for each other, unless a staff casts them.
pub proof fn law_buffs_do_not_wait(
    entries: Map<u8, TypeCooldown>,
    skill_id: u32,
    other_type: u8,
    cast_time: i16,
    now: u64,
)
    requires
        !staff_skill(skill_id),
    ensures
        !type_blocked(entries, skill_id, 4, other_type, cast_time, false, now),
{
}

/// How long a skill waits: 90 milliseconds for each unit of its recast time, and none for a
/// negative one; at least a second for buffs of scrolls, and else at least 900 milliseconds for
/// attacks of the survival event.
pub proof fn law_recast_times(recast_time: i16, scroll_buff: bool, manes_offensive: bool)
    ensures
        ({
            let r = recast_ms(recast_time, scroll_buff, manes_offensive);
            let floor: int = if scroll_buff {
                1000
            } else if manes_offensive {
                900
            } else {
                0
            };
            &&& r >= floor
            &&& r > floor ==> r == 90 * recast_time
            &&& r == floor ==> 90 * recast_time <= floor
        }),
{
}

/// How long a kind of magic waits, by its number: a staff attack 800 milliseconds, buffs not at
/// all, melee without casting time 650, or 400 once it was refused, and all else 575. An entry
/// blocks exactly until that time has passed, unless attack speed lets the cast through.
pub proof fn law_kinds_of_magic_wait(
    entries: Map<u8, TypeCooldown>,
    skill_id: u32,
    check_type: u8,
    other_type: u8,
    cast_time: i16,
    existspeed: bool,
    now: u64,
)
    ensures
        ({
            let e = entries[check_type];
            let melee = (check_type == 1 || other_type == 1) && cast_time == 0;
            let wait: int = if staff_skill(skill_id) {
                800
            } else if check_type == 4 {
                0
            } else if melee && e.t_catch {
                400
            } else if melee {
                650
            } else {
                575
            };
            type_blocked(
                entries,
                skill_id,
                check_type,
                other_type,
                cast_time,
                existspeed,
                now,
            ) <==> {
                &&& entries.dom().contains(check_type)
                &&& !existspeed
                &&& now < e.time + wait
                &&& wait > 0
            }
        }),
{
}

/// What a check leaves behind: a refused cast waits from now on and counts as refused, a passed
/// one lies ten seconds back and does not. Kinds without an entry get none, and every other kind
/// keeps its own.
pub proof fn law_checks_leave_their_mark(
    entries: Map<u8, TypeCooldown>,
    check_type: u8,
    blocked: bool,
    now: u64,
    other: u8,
)
    requires
        now >= 10000,
    ensures
        ({
            let after = entries_after_check(entries, check_type, blocked, now);
            &&& after.dom().contains(other) <==> entries.dom().contains(other)
            &&& other != check_type && entries.dom().contains(other) ==> after[other]
                == entries[other]
            &&& entries.dom().contains(check_type) ==> {
                &&& after[check_type].t_catch == blocked
                &&& blocked ==> after[check_type].time == now
                &&& !blocked ==> after[check_type].time + 10000 == now
            }
        }),
{
}

/// What a cast leaves behind: both of its kinds wait from now on and do not count as refused.
/// Damage over time, kind 3 with a first number of -1, goes under 10; kind 0 is none. Every
/// other kind keeps its own.
pub proof fn law_casts_leave_their_mark(
    entries: Map<u8, TypeCooldown>,
    type1: u8,
    type2: u8,
    t_1: i32,
    now: u64,
    kind: u8,
)
    ensures
        ({
            let after = entries_after_cast(entries, type1, type2, t_1, now);
            let first = if type1 == 3 && t_1 == -1 {
                10
            } else {
                type1
            };
            let cast = (type1 != 0 && kind == first) || (type2 != 0 && kind == type2);
            &&& type_key(type1, t_1) == first
            &&& cast ==> after.dom().contains(kind) && after[kind].time == now
                && !after[kind].t_catch
            &&& !cast ==> (after.dom().contains(kind) <==> entries.dom().contains(kind))
            &&& !cast && entries.dom().contains(kind) ==> after[kind] == entries[kind]
        }),
{
}

/// Which kinds block a skill: its first or its second, each by its own entry. Attack speed lets
/// the first through and never the second, a kind of 0 blocks nothing, and nothing blocks the
/// answers of mage armors, which leave no mark either.
pub proof fn law_both_kinds_can_block(
    entries: Map<u8, TypeCooldown>,
    skill: MagicRow,
    type1: u8,
    type2: u8,
    existspeed: bool,
    now: u64,
)
    requires
        now >= 10000,
        type2 != type_key(type1, crate::arith::or_i32(skill.t_1, 0)),
    ensures
        ({
            let id = skill.magic_num as u32;
            let cast_time = crate::arith::or_i16(skill.cast_time, 0);
            let key = if type1 == 3 && skill.t_1 == Some(-1i32) {
                10
            } else {
                type1
            };
            let first = key != 0 && type_blocked(
                entries,
                id,
                key,
                type2,
                cast_time,
                existspeed,
                now,
            );
            let second = type2 != 0 && type_blocked(
                entries,
                id,
                type2,
                type1,
                cast_time,
                false,
                now,
            );
            let blocked = skill_types_blocked(entries, skill, type1, type2, existspeed, now);
            let after = entries_after_skill_check(entries, skill, type1, type2, existspeed, now);
            &&& mage_armor_skill(id) ==> !blocked && after == entries
            &&& !mage_armor_skill(id) ==> (blocked <==> first || second)
            &&& !mage_armor_skill(id) && key != 0 && entries.dom().contains(key) ==> {
                &&& after[key].t_catch == first
                &&& first ==> after[key].time == now
                &&& !first ==> after[key].time + 10000 == now
            }
            &&& !mage_armor_skill(id) && type2 != 0 && entries.dom().contains(type2) ==> {
                &&& first ==> after[type2] == entries[type2]
                &&& !first ==> after[type2].t_catch == second
                &&& !first && second ==> after[type2].time == now
                &&& !first && !second ==> after[type2].time + 10000 == now
            }
            &&& forall|k: u8|
                #![trigger after[k]]
                k != key && k != type2 && entries.dom().contains(k) ==> after[k] == entries[k]
        }),
{
}

/// What is forgotten of waiting skills is exactly what has waited long enough.
pub proof fn law_only_the_expired_is_forgotten(m: Map<u32, u64>, now: u64, skill_id: u32)
    ensures
        unexpired(m, now).dom().contains(skill_id) <==> m.dom().contains(skill_id) && m[skill_id]
            > now,
        unexpired(m, now).dom().contains(skill_id) ==> unexpired(m, now)[skill_id] == m[skill_id],
{
}

/// Time that has passed is never negative, and is the difference wherever it can be.
pub proof fn law_time_passes(now: u64, since: u64)
    ensures
        now >= since ==> elapsed(now, since) + since == now,
        now <= since ==> elapsed(now, since) == 0,
{
}

/// Empty columns of a skill count as 0 for the waits of its kinds.
pub proof fn law_empty_columns_are_0_for_waits(
    entries: Map<u8, TypeCooldown>,
    skill: MagicRow,
    type1: u8,
    type2: u8,
    existspeed: bool,
    now: u64,
)
    ensures
        ({
            let f = crate::tables::filled_skill(skill);
            &&& skill_types_blocked(entries, f, type1, type2, existspeed, now)
                == skill_types_blocked(entries, skill, type1, type2, existspeed, now)
            &&& entries_after_skill_check(entries, f, type1, type2, existspeed, now)
                == entries_after_skill_check(entries, skill, type1, type2, existspeed, now)
        }),
{
}

} // verus!
