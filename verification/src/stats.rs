//! Per-player combat statistics: cumulative damage dealt and received,
//! per-ability totals with a parallel critical-hit subset, status-effect
//! stack counters and an orb-pickup counter, plus the name-keyed collection
//! of these records.
//!
//! Counters are kept in vectors of unique-keyed entries whose mathematical
//! model is a `Map`; all contracts speak over that model. Accumulation
//! saturates at the `i64` bounds instead of overflowing.

use vstd::prelude::*;
use crate::events::DamageDealtEventData;
use crate::events::DamageDealtEventDataV;
use crate::events::DamageReceivedEventData;
use crate::events::DamageReceivedEventDataV;
use crate::events::AddStatusEffectData;
use crate::events::AddStatusEffectDataV;
use crate::events::Entity;
use crate::events::EntityV;
use crate::events::PlayerData;
use crate::events::PlayerDataV;
use crate::text::chars_eq;
use crate::text::chars_vec;

verus! {

/// Addition on `i64` values that clamps at the type's bounds.
pub open spec fn sat_add_i64(a: int, b: int) -> int {
    if a + b > i64::MAX {
        i64::MAX as int
    } else if a + b < i64::MIN {
        i64::MIN as int
    } else {
        a + b
    }
}

/// Exec saturating addition, pinned to `sat_add_i64`.
pub fn sat_add(a: i64, b: i64) -> (r: i64)
    ensures
        r as int == sat_add_i64(a as int, b as int),
{
    match a.checked_add(b) {
        Some(v) => v,
        None => if b > 0 {
            i64::MAX
        } else {
            i64::MIN
        },
    }
}

/// The map a sequence of keyed counter entries stands for.
pub open spec fn counter_entries_map(s: Seq<(String, i64)>) -> Map<Seq<char>, int>
    decreases s.len(),
{
    if s.len() == 0 {
        Map::empty()
    } else {
        counter_entries_map(s.drop_last()).insert(s.last().0@, s.last().1 as int)
    }
}

/// Bumping a named counter: saturating addition on an existing entry, the
/// bare amount on a fresh one.
pub open spec fn counter_bump(m: Map<Seq<char>, int>, k: Seq<char>, amount: int) -> Map<
    Seq<char>,
    int,
> {
    if m.contains_key(k) {
        m.insert(k, sat_add_i64(m[k], amount))
    } else {
        m.insert(k, amount)
    }
}

/// A cumulative counter per name, modelled as a `Map<Seq<char>, int>`.
#[derive(Debug, PartialEq)]
pub struct CounterMap {
    pub entries: Vec<(String, i64)>,
}

impl View for CounterMap {
    type V = Map<Seq<char>, int>;

    open spec fn view(&self) -> Map<Seq<char>, int> {
        counter_entries_map(self.entries@)
    }
}

proof fn lemma_counter_map_domain(s: Seq<(String, i64)>)
    ensures
        forall|i: int| 0 <= i < s.len() ==> counter_entries_map(s).contains_key(#[trigger] s[i].0@),
        forall|k: Seq<char>|
            #[trigger] counter_entries_map(s).contains_key(k) ==> exists|i: int|
                0 <= i < s.len() && #[trigger] s[i].0@ == k,
    decreases s.len(),
{
    if s.len() > 0 {
        lemma_counter_map_domain(s.drop_last());
        assert forall|i: int| 0 <= i < s.len() implies counter_entries_map(s).contains_key(
            #[trigger] s[i].0@,
        ) by {
            if i < s.len() - 1 {
                assert(s.drop_last()[i] == s[i]);
            }
        }
        assert forall|k: Seq<char>| #[trigger]
            counter_entries_map(s).contains_key(k) implies exists|i: int|
            0 <= i < s.len() && #[trigger] s[i].0@ == k by {
            if k == s.last().0@ {
                assert(s[s.len() - 1].0@ == k);
            } else {
                assert(counter_entries_map(s.drop_last()).contains_key(k));
                let i = choose|i: int|
                    0 <= i < s.drop_last().len() && #[trigger] s.drop_last()[i].0@ == k;
                assert(s[i].0@ == k);
            }
        }
    }
}

proof fn lemma_counter_map_value(s: Seq<(String, i64)>, i: int)
    requires
        0 <= i < s.len(),
        forall|x: int, y: int| 0 <= x < y < s.len() ==> s[x].0@ != s[y].0@,
    ensures
        counter_entries_map(s)[s[i].0@] == s[i].1 as int,
    decreases s.len(),
{
    if i == s.len() - 1 {
    } else {
        assert(s.drop_last()[i] == s[i]);
        lemma_counter_map_value(s.drop_last(), i);
        assert(s[i].0@ != s.last().0@);
    }
}

proof fn lemma_counter_map_update(s: Seq<(String, i64)>, i: int, e: (String, i64))
    requires
        0 <= i < s.len(),
        forall|x: int, y: int| 0 <= x < y < s.len() ==> s[x].0@ != s[y].0@,
        e.0@ == s[i].0@,
    ensures
        counter_entries_map(s.update(i, e)) =~= counter_entries_map(s).insert(e.0@, e.1 as int),
    decreases s.len(),
{
    let t = s.update(i, e);
    if i == s.len() - 1 {
        assert(t.drop_last() =~= s.drop_last());
        assert(t.last() == e);
    } else {
        assert(t.drop_last() =~= s.drop_last().update(i, e));
        assert(s.drop_last()[i] == s[i]);
        lemma_counter_map_update(s.drop_last(), i, e);
        assert(t.last() == s.last());
        assert(e.0@ != s.last().0@);
    }
}

impl CounterMap {
    /// Entry keys are pairwise distinct.
    pub open spec fn wf(&self) -> bool {
        forall|x: int, y: int|
            0 <= x < y < self.entries@.len() ==> self.entries@[x].0@ != self.entries@[y].0@
    }

    /// An empty counter map.
    pub fn new() -> (r: CounterMap)
        ensures
            r@ == Map::<Seq<char>, int>::empty(),
            r.wf(),
    {
        CounterMap { entries: Vec::new() }
    }

    /// The counter stored under a name, if any.
    pub fn get_count(&self, name: &str) -> (r: Option<i64>)
        requires
            self.wf(),
        ensures
            match r {
                Some(v) => self@.contains_key(name@) && v as int == self@[name@],
                None => !self@.contains_key(name@),
            },
    {
        let key = chars_vec(name);
        let n = self.entries.len();
        let mut i: usize = 0;
        while i < n
            invariant
                self.wf(),
                n == self.entries@.len(),
                i <= n,
                key@ == name@,
                forall|j: int| 0 <= j < i ==> self.entries@[j].0@ != name@,
            decreases n - i,
        {
            let ec = chars_vec(self.entries[i].0.as_str());
            if chars_eq(&ec, &key) {
                proof {
                    lemma_counter_map_domain(self.entries@);
                    lemma_counter_map_value(self.entries@, i as int);
                }
                return Some(self.entries[i].1);
            }
            i += 1;
        }
        proof {
            lemma_counter_map_domain(self.entries@);
            if self@.contains_key(name@) {
                let j = choose|j: int|
                    0 <= j < self.entries@.len() && #[trigger] self.entries@[j].0@ == name@;
                assert(false);
            }
        }
        None
    }

    /// Add `amount` to the counter under `name`, creating the entry on
    /// demand; an existing counter saturates at the `i64` bounds.
    pub fn bump(&mut self, name: &str, amount: i64)
        requires
            old(self).wf(),
        ensures
            final(self).wf(),
            final(self)@ == counter_bump(old(self)@, name@, amount as int),
    {
        let key = chars_vec(name);
        let n = self.entries.len();
        let mut i: usize = 0;
        while i < n
            invariant
                self.wf(),
                self == old(self),
                n == self.entries@.len(),
                i <= n,
                key@ == name@,
                forall|j: int| 0 <= j < i ==> self.entries@[j].0@ != name@,
            decreases n - i,
        {
            let ec = chars_vec(self.entries[i].0.as_str());
            if chars_eq(&ec, &key) {
                proof {
                    lemma_counter_map_domain(self.entries@);
                    lemma_counter_map_value(self.entries@, i as int);
                }
                let nv = sat_add(self.entries[i].1, amount);
                let ghost olds = self.entries@;
                self.entries[i].1 = nv;
                proof {
                    assert(self.entries@ =~= olds.update(
                        i as int,
                        (olds[i as int].0, nv),
                    ));
                    lemma_counter_map_update(olds, i as int, (olds[i as int].0, nv));
                }
                return ;
            }
            i += 1;
        }
        proof {
            lemma_counter_map_domain(self.entries@);
            if self@.contains_key(name@) {
                let j = choose|j: int|
                    0 <= j < self.entries@.len() && #[trigger] self.entries@[j].0@ == name@;
                assert(false);
            }
        }
        let ghost olds = self.entries@;
        self.entries.push((name.to_owned(), amount));
        proof {
            assert(self.entries@.drop_last() =~= olds);
        }
    }
}

/// Ongoing statistics for one player.
#[derive(Debug, PartialEq)]
pub struct PlayerStats {
    pub player_data: PlayerData,
    pub total_damage_dealt: i64,
    pub total_damage_received: i64,
    pub skill_totals: CounterMap,
    pub crit_totals: CounterMap,
    pub status_applied: CounterMap,
    pub orb_pickups: i64,
}

/// Model of one player's statistics.
pub struct PlayerStatsV {
    pub player_data: PlayerDataV,
    pub total_damage_dealt: int,
    pub total_damage_received: int,
    pub skill_totals: Map<Seq<char>, int>,
    pub crit_totals: Map<Seq<char>, int>,
    pub status_applied: Map<Seq<char>, int>,
    pub orb_pickups: int,
}

impl View for PlayerStats {
    type V = PlayerStatsV;

    open spec fn view(&self) -> PlayerStatsV {
        PlayerStatsV {
            player_data: self.player_data@,
            total_damage_dealt: self.total_damage_dealt as int,
            total_damage_received: self.total_damage_received as int,
            skill_totals: self.skill_totals@,
            crit_totals: self.crit_totals@,
            status_applied: self.status_applied@,
            orb_pickups: self.orb_pickups as int,
        }
    }
}

/// A fresh statistics record: the identity, with every counter zero.
pub open spec fn stats_zero(p: PlayerDataV) -> PlayerStatsV {
    PlayerStatsV {
        player_data: p,
        total_damage_dealt: 0,
        total_damage_received: 0,
        skill_totals: Map::empty(),
        crit_totals: Map::empty(),
        status_applied: Map::empty(),
        orb_pickups: 0,
    }
}

/// Dealt damage: the amount is added to the total dealt, to the ability's
/// skill total, and, only on a critical hit, to the ability's crit total.
pub open spec fn stats_apply_dealt(s: PlayerStatsV, d: DamageDealtEventDataV) -> PlayerStatsV {
    PlayerStatsV {
        total_damage_dealt: sat_add_i64(s.total_damage_dealt, d.amount),
        skill_totals: counter_bump(s.skill_totals, d.ability, d.amount),
        crit_totals: if d.crit {
            counter_bump(s.crit_totals, d.ability, d.amount)
        } else {
            s.crit_totals
        },
        ..s
    }
}

/// Received damage: the amount is added to the total received only.
pub open spec fn stats_apply_received(s: PlayerStatsV, d: DamageReceivedEventDataV) -> PlayerStatsV {
    PlayerStatsV { total_damage_received: sat_add_i64(s.total_damage_received, d.amount), ..s }
}

/// An orb pickup: the orb counter goes up by one.
pub open spec fn stats_apply_orb(s: PlayerStatsV) -> PlayerStatsV {
    PlayerStatsV { orb_pickups: sat_add_i64(s.orb_pickups, 1), ..s }
}

/// A status effect: the stacks added, not the resulting total, accumulate
/// under the effect's name.
pub open spec fn stats_apply_status(s: PlayerStatsV, d: AddStatusEffectDataV) -> PlayerStatsV {
    PlayerStatsV { status_applied: counter_bump(s.status_applied, d.effectname, d.added), ..s }
}

impl PlayerStats {
    /// All counter maps have distinct keys.
    pub open spec fn wf(&self) -> bool {
        self.skill_totals.wf() && self.crit_totals.wf() && self.status_applied.wf()
    }

    /// A fresh record for a player, every counter zero.
    pub fn new(player_data: PlayerData) -> (r: PlayerStats)
        ensures
            r@ == stats_zero(player_data@),
            r.wf(),
    {
        PlayerStats {
            player_data,
            total_damage_dealt: 0,
            total_damage_received: 0,
            skill_totals: CounterMap::new(),
            crit_totals: CounterMap::new(),
            status_applied: CounterMap::new(),
            orb_pickups: 0,
        }
    }

    /// Record dealt damage.
    pub fn apply_dealt_damage(&mut self, dmg: DamageDealtEventData)
        requires
            old(self).wf(),
        ensures
            final(self).wf(),
            final(self)@ == stats_apply_dealt(old(self)@, dmg@),
    {
        self.skill_totals.bump(dmg.ability.as_str(), dmg.amount);
        if dmg.crit {
            self.crit_totals.bump(dmg.ability.as_str(), dmg.amount);
        }
        self.total_damage_dealt = sat_add(self.total_damage_dealt, dmg.amount);
    }

    /// Record received damage.
    pub fn apply_received_damage(&mut self, dmg: DamageReceivedEventData)
        requires
            old(self).wf(),
        ensures
            final(self).wf(),
            final(self)@ == stats_apply_received(old(self)@, dmg@),
    {
        self.total_damage_received = sat_add(self.total_damage_received, dmg.amount);
    }

    /// Record one orb pickup.
    pub fn increment_orbs(&mut self)
        requires
            old(self).wf(),
        ensures
            final(self).wf(),
            final(self)@ == stats_apply_orb(old(self)@),
    {
        self.orb_pickups = sat_add(self.orb_pickups, 1);
    }

    /// Record an applied status effect.
    pub fn apply_status_effects(&mut self, data: &AddStatusEffectData)
        requires
            old(self).wf(),
        ensures
            final(self).wf(),
            final(self)@ == stats_apply_status(old(self)@, data@),
    {
        self.status_applied.bump(data.effectname.as_str(), data.added);
    }
}

/// The map a sequence of player records stands for, keyed by player name.
pub open spec fn stats_entries_map(s: Seq<PlayerStats>) -> Map<Seq<char>, PlayerStatsV>
    decreases s.len(),
{
    if s.len() == 0 {
        Map::empty()
    } else {
        stats_entries_map(s.drop_last()).insert(s.last().player_data.name@, s.last()@)
    }
}

/// A collection of player statistics, keyed by player name.
#[derive(Debug, PartialEq)]
pub struct PlayerStatList {
    pub player_stats: Vec<PlayerStats>,
}

impl View for PlayerStatList {
    type V = Map<Seq<char>, PlayerStatsV>;

    open spec fn view(&self) -> Map<Seq<char>, PlayerStatsV> {
        stats_entries_map(self.player_stats@)
    }
}

proof fn lemma_stats_map_domain(s: Seq<PlayerStats>)
    ensures
        forall|i: int|
            0 <= i < s.len() ==> stats_entries_map(s).contains_key(
                #[trigger] s[i].player_data.name@,
            ),
        forall|k: Seq<char>|
            #[trigger] stats_entries_map(s).contains_key(k) ==> exists|i: int|
                0 <= i < s.len() && #[trigger] s[i].player_data.name@ == k,
    decreases s.len(),
{
    if s.len() > 0 {
        lemma_stats_map_domain(s.drop_last());
        assert forall|i: int| 0 <= i < s.len() implies stats_entries_map(s).contains_key(
            #[trigger] s[i].player_data.name@,
        ) by {
            if i < s.len() - 1 {
                assert(s.drop_last()[i] == s[i]);
            }
        }
        assert forall|k: Seq<char>| #[trigger]
            stats_entries_map(s).contains_key(k) implies exists|i: int|
            0 <= i < s.len() && #[trigger] s[i].player_data.name@ == k by {
            if k == s.last().player_data.name@ {
                assert(s[s.len() - 1].player_data.name@ == k);
            } else {
                assert(stats_entries_map(s.drop_last()).contains_key(k));
                let i = choose|i: int|
                    0 <= i < s.drop_last().len() && #[trigger] s.drop_last()[i].player_data.name@
                        == k;
                assert(s[i].player_data.name@ == k);
            }
        }
    }
}

proof fn lemma_stats_map_value(s: Seq<PlayerStats>, i: int)
    requires
        0 <= i < s.len(),
        forall|x: int, y: int|
            0 <= x < y < s.len() ==> s[x].player_data.name@ != s[y].player_data.name@,
    ensures
        stats_entries_map(s)[s[i].player_data.name@] == s[i]@,
    decreases s.len(),
{
    if i == s.len() - 1 {
    } else {
        assert(s.drop_last()[i] == s[i]);
        lemma_stats_map_value(s.drop_last(), i);
        assert(s[i].player_data.name@ != s.last().player_data.name@);
    }
}

proof fn lemma_stats_map_update(s: Seq<PlayerStats>, i: int, e: PlayerStats)
    requires
        0 <= i < s.len(),
        forall|x: int, y: int|
            0 <= x < y < s.len() ==> s[x].player_data.name@ != s[y].player_data.name@,
        e.player_data.name@ == s[i].player_data.name@,
    ensures
        stats_entries_map(s.update(i, e)) =~= stats_entries_map(s).insert(
            e.player_data.name@,
            e@,
        ),
    decreases s.len(),
{
    let t = s.update(i, e);
    if i == s.len() - 1 {
        assert(t.drop_last() =~= s.drop_last());
        assert(t.last() == e);
    } else {
        assert(t.drop_last() =~= s.drop_last().update(i, e));
        assert(s.drop_last()[i] == s[i]);
        lemma_stats_map_update(s.drop_last(), i, e);
        assert(t.last() == s.last());
        assert(e.player_data.name@ != s.last().player_data.name@);
    }
}

impl PlayerStatList {
    /// Records are well formed and keyed by pairwise-distinct player names.
    pub open spec fn wf(&self) -> bool {
        &&& forall|x: int, y: int|
            0 <= x < y < self.player_stats@.len() ==> self.player_stats@[x].player_data.name@
                != self.player_stats@[y].player_data.name@
        &&& forall|i: int| 0 <= i < self.player_stats@.len() ==> (#[trigger] self.player_stats@[i]).wf()
    }

    /// An empty collection.
    pub fn new() -> (r: PlayerStatList)
        ensures
            r@ == Map::<Seq<char>, PlayerStatsV>::empty(),
            r.wf(),
    {
        PlayerStatList { player_stats: Vec::new() }
    }

    /// The record stored under a player name, if any.
    pub fn get(&self, name: &str) -> (r: Option<&PlayerStats>)
        requires
            self.wf(),
        ensures
            match r {
                Some(p) => self@.contains_key(name@) && p@ == self@[name@],
                None => !self@.contains_key(name@),
            },
    {
        let key = chars_vec(name);
        let n = self.player_stats.len();
        let mut i: usize = 0;
        while i < n
            invariant
                self.wf(),
                n == self.player_stats@.len(),
                i <= n,
                key@ == name@,
                forall|j: int| 0 <= j < i ==> self.player_stats@[j].player_data.name@ != name@,
            decreases n - i,
        {
            let ec = chars_vec(self.player_stats[i].player_data.name.as_str());
            if chars_eq(&ec, &key) {
                proof {
                    lemma_stats_map_domain(self.player_stats@);
                    lemma_stats_map_value(self.player_stats@, i as int);
                }
                return Some(&self.player_stats[i]);
            }
            i += 1;
        }
        proof {
            lemma_stats_map_domain(self.player_stats@);
            if self@.contains_key(name@) {
                let j = choose|j: int|
                    0 <= j < self.player_stats@.len()
                        && #[trigger] self.player_stats@[j].player_data.name@ == name@;
                assert(false);
            }
        }
        None
    }

    /// Index of the record for a player name, if any.
    fn find_idx(&self, key: &Vec<char>) -> (r: Option<usize>)
        requires
            self.wf(),
        ensures
            match r {
                Some(i) => i < self.player_stats@.len()
                    && self.player_stats@[i as int].player_data.name@ == key@
                    && self@.contains_key(key@) && self@[key@] == self.player_stats@[i as int]@,
                None => !self@.contains_key(key@),
            },
    {
        let n = self.player_stats.len();
        let mut i: usize = 0;
        while i < n
            invariant
                self.wf(),
                n == self.player_stats@.len(),
                i <= n,
                forall|j: int| 0 <= j < i ==> self.player_stats@[j].player_data.name@ != key@,
            decreases n - i,
        {
            let ec = chars_vec(self.player_stats[i].player_data.name.as_str());
            if chars_eq(&ec, key) {
                proof {
                    lemma_stats_map_domain(self.player_stats@);
                    lemma_stats_map_value(self.player_stats@, i as int);
                }
                return Some(i);
            }
            i += 1;
        }
        proof {
            lemma_stats_map_domain(self.player_stats@);
            if self@.contains_key(key@) {
                let j = choose|j: int|
                    0 <= j < self.player_stats@.len()
                        && #[trigger] self.player_stats@[j].player_data.name@ == key@;
                assert(false);
            }
        }
        None
    }

    /// Record dealt damage under the source player's name, creating the
    /// record on demand.
    pub fn apply_dealt_damage(&mut self, dmg: DamageDealtEventData)
        requires
            old(self).wf(),
        ensures
            final(self).wf(),
            final(self)@ == list_apply_dealt(old(self)@, dmg@),
    {
        let key = chars_vec(dmg.source.name.as_str());
        match self.find_idx(&key) {
            Some(i) => {
                let ghost olds = self.player_stats@;
                let entry = &mut self.player_stats[i];
                entry.apply_dealt_damage(dmg);
                proof {
                    lemma_stats_map_update(olds, i as int, self.player_stats@[i as int]);
                }
            },
            None => {
                let mut fresh = PlayerStats::new(dmg.source.clone());
                fresh.apply_dealt_damage(dmg);
                let ghost olds = self.player_stats@;
                self.player_stats.push(fresh);
                proof {
                    assert(self.player_stats@.drop_last() =~= olds);
                    lemma_stats_map_domain(olds);
                }
            },
        }
    }

    /// Record received damage under the target player's name, creating the
    /// record on demand.
    pub fn apply_received_damage(&mut self, dmg: DamageReceivedEventData)
        requires
            old(self).wf(),
        ensures
            final(self).wf(),
            final(self)@ == list_apply_received(old(self)@, dmg@),
    {
        let key = chars_vec(dmg.target.name.as_str());
        match self.find_idx(&key) {
            Some(i) => {
                let ghost olds = self.player_stats@;
                let entry = &mut self.player_stats[i];
                entry.apply_received_damage(dmg);
                proof {
                    lemma_stats_map_update(olds, i as int, self.player_stats@[i as int]);
                }
            },
            None => {
                let mut fresh = PlayerStats::new(dmg.target.clone());
                fresh.apply_received_damage(dmg);
                let ghost olds = self.player_stats@;
                self.player_stats.push(fresh);
                proof {
                    assert(self.player_stats@.drop_last() =~= olds);
                    lemma_stats_map_domain(olds);
                }
            },
        }
    }

    /// Record an orb pickup for a resolved player, creating the record on
    /// demand.
    pub fn apply_orb_pickup(&mut self, player: PlayerData)
        requires
            old(self).wf(),
        ensures
            final(self).wf(),
            final(self)@ == list_apply_orb(old(self)@, player@),
    {
        let key = chars_vec(player.name.as_str());
        match self.find_idx(&key) {
            Some(i) => {
                let ghost olds = self.player_stats@;
                let entry = &mut self.player_stats[i];
                entry.increment_orbs();
                proof {
                    lemma_stats_map_update(olds, i as int, self.player_stats@[i as int]);
                }
            },
            None => {
                let mut fresh = PlayerStats::new(player);
                fresh.increment_orbs();
                let ghost olds = self.player_stats@;
                self.player_stats.push(fresh);
                proof {
                    assert(self.player_stats@.drop_last() =~= olds);
                    lemma_stats_map_domain(olds);
                }
            },
        }
    }

    /// Record an applied status effect for its target. A status effect whose
    /// target is still an opaque handle names no player and changes nothing.
    pub fn apply_status_effects(&mut self, data: AddStatusEffectData)
        requires
            old(self).wf(),
        ensures
            final(self).wf(),
            final(self)@ == list_apply_status(old(self)@, data@),
    {
        let target_player = match &data.target {
            Entity::Player(p) => p.clone(),
            Entity::Id(_) => {
                return ;
            },
        };
        let key = chars_vec(target_player.name.as_str());
        match self.find_idx(&key) {
            Some(i) => {
                let ghost olds = self.player_stats@;
                let entry = &mut self.player_stats[i];
                entry.apply_status_effects(&data);
                proof {
                    lemma_stats_map_update(olds, i as int, self.player_stats@[i as int]);
                }
            },
            None => {
                let mut fresh = PlayerStats::new(target_player);
                fresh.apply_status_effects(&data);
                let ghost olds = self.player_stats@;
                self.player_stats.push(fresh);
                proof {
                    assert(self.player_stats@.drop_last() =~= olds);
                    lemma_stats_map_domain(olds);
                }
            },
        }
    }
}

/// The critical-hit totals stay a subset of the skill totals, keyed
/// identically: every recording of dealt damage keeps every crit-total key a
/// skill-total key.
pub proof fn lemma_crit_totals_within_skill_totals(s: PlayerStatsV, d: DamageDealtEventDataV)
    requires
        s.crit_totals.dom().subset_of(s.skill_totals.dom()),
    ensures
        stats_apply_dealt(s, d).crit_totals.dom().subset_of(
            stats_apply_dealt(s, d).skill_totals.dom(),
        ),
{
    let r = stats_apply_dealt(s, d);
    assert forall|k: Seq<char>| r.crit_totals.dom().contains(k) implies r.skill_totals.dom()
        .contains(k) by {
        if k != d.ability {
            assert(s.crit_totals.dom().contains(k));
        }
    }
}

/// Dealt damage lands on the source player's record, which is created on
/// demand.
pub open spec fn list_apply_dealt(
    m: Map<Seq<char>, PlayerStatsV>,
    d: DamageDealtEventDataV,
) -> Map<Seq<char>, PlayerStatsV> {
    let base = if m.contains_key(d.source.name) {
        m[d.source.name]
    } else {
        stats_zero(d.source)
    };
    m.insert(d.source.name, stats_apply_dealt(base, d))
}

/// Received damage lands on the target player's record, which is created on
/// demand.
pub open spec fn list_apply_received(
    m: Map<Seq<char>, PlayerStatsV>,
    d: DamageReceivedEventDataV,
) -> Map<Seq<char>, PlayerStatsV> {
    let base = if m.contains_key(d.target.name) {
        m[d.target.name]
    } else {
        stats_zero(d.target)
    };
    m.insert(d.target.name, stats_apply_received(base, d))
}

/// An orb pickup lands on the player's record, which is created on demand
/// before the counter goes up.
pub open spec fn list_apply_orb(m: Map<Seq<char>, PlayerStatsV>, p: PlayerDataV) -> Map<
    Seq<char>,
    PlayerStatsV,
> {
    let base = if m.contains_key(p.name) {
        m[p.name]
    } else {
        stats_zero(p)
    };
    m.insert(p.name, stats_apply_orb(base))
}

/// A status effect lands on the target player's record when the target is
/// resolved, and changes nothing otherwise.
pub open spec fn list_apply_status(
    m: Map<Seq<char>, PlayerStatsV>,
    d: AddStatusEffectDataV,
) -> Map<Seq<char>, PlayerStatsV> {
    match d.target {
        EntityV::Player(p) => {
            let base = if m.contains_key(p.name) {
                m[p.name]
            } else {
                stats_zero(p)
            };
            m.insert(p.name, stats_apply_status(base, d))
        },
        EntityV::Id(_) => m,
    }
}

} // verus!
