//! The session state machine: a flat stream of domain events is routed into
//! a nested, most-recent-first history of dives and the combats within them,
//! with statistics aggregated both dive-wide and per combat from the same
//! stream.

use vstd::prelude::*;
use vstd::string::StringExecFns;
use crate::events::Event;
use crate::events::EventV;
use crate::text::dec_rep;
use crate::text::u64_to_string;
use crate::stats::PlayerStatList;
use crate::stats::PlayerStatsV;
use crate::stats::list_apply_dealt;
use crate::stats::list_apply_received;
use crate::stats::list_apply_orb;
use crate::stats::list_apply_status;

verus! {

/// Statistics scoped to one encounter.
#[derive(Debug, PartialEq)]
pub struct CombatLog {
    pub player_stats: PlayerStatList,
}

/// Model of a combat.
pub struct CombatLogV {
    pub player_stats: Map<Seq<char>, PlayerStatsV>,
}

impl View for CombatLog {
    type V = CombatLogV;

    open spec fn view(&self) -> CombatLogV {
        CombatLogV { player_stats: self.player_stats@ }
    }
}

/// One play session: session-wide statistics plus the most-recent-first list
/// of its combats.
#[derive(Debug, PartialEq)]
pub struct DiveLog {
    pub player_stats: PlayerStatList,
    pub combats: Vec<CombatLog>,
}

/// Model of a dive.
pub struct DiveLogV {
    pub player_stats: Map<Seq<char>, PlayerStatsV>,
    pub combats: Seq<CombatLogV>,
}

impl View for DiveLog {
    type V = DiveLogV;

    open spec fn view(&self) -> DiveLogV {
        DiveLogV {
            player_stats: self.player_stats@,
            combats: self.combats@.map_values(|c: CombatLog| c@),
        }
    }
}

/// The root of the published structure: the most-recent-first list of dives
/// plus the point-of-view player name, once learned.
#[derive(Debug, PartialEq)]
pub struct DataLog {
    pub dives: Vec<DiveLog>,
    pub pov: Option<String>,
}

/// Model of the data log.
pub struct DataLogV {
    pub dives: Seq<DiveLogV>,
    pub pov: Option<Seq<char>>,
}

impl View for DataLog {
    type V = DataLogV;

    open spec fn view(&self) -> DataLogV {
        DataLogV {
            dives: self.dives@.map_values(|d: DiveLog| d@),
            pov: match &self.pov {
                Some(n) => Some(n@),
                None => None,
            },
        }
    }
}

/// An empty combat.
pub open spec fn combat_zero() -> CombatLogV {
    CombatLogV { player_stats: Map::empty() }
}

/// An empty dive.
pub open spec fn dive_zero() -> DiveLogV {
    DiveLogV { player_stats: Map::empty(), combats: Seq::empty() }
}

/// How one event changes a combat: damage, orb and status events land in its
/// statistics; boundary and turn events are inert.
pub open spec fn combat_step(c: CombatLogV, e: EventV) -> CombatLogV {
    match e {
        EventV::DamageDealt(_, d) => CombatLogV { player_stats: list_apply_dealt(c.player_stats, d) },
        EventV::DamageReceived(_, d) => CombatLogV {
            player_stats: list_apply_received(c.player_stats, d),
        },
        EventV::OrbPickup(_, p) => CombatLogV { player_stats: list_apply_orb(c.player_stats, p) },
        EventV::AddStatusEffect(_, d) => CombatLogV {
            player_stats: list_apply_status(c.player_stats, d),
        },
        _ => c,
    }
}

/// How one event changes a dive: a combat start prepends a fresh combat;
/// damage, orb and status events land in the dive-wide statistics; then the
/// event is forwarded unchanged to the newest combat, if one exists.
pub open spec fn dive_step(dv: DiveLogV, e: EventV) -> DiveLogV {
    let mid = match e {
        EventV::StartCombat(_) => DiveLogV { combats: dv.combats.insert(0, combat_zero()), ..dv },
        EventV::DamageDealt(_, d) => DiveLogV {
            player_stats: list_apply_dealt(dv.player_stats, d),
            ..dv
        },
        EventV::DamageReceived(_, d) => DiveLogV {
            player_stats: list_apply_received(dv.player_stats, d),
            ..dv
        },
        EventV::OrbPickup(_, p) => DiveLogV {
            player_stats: list_apply_orb(dv.player_stats, p),
            ..dv
        },
        EventV::AddStatusEffect(_, d) => DiveLogV {
            player_stats: list_apply_status(dv.player_stats, d),
            ..dv
        },
        _ => dv,
    };
    if mid.combats.len() > 0 {
        DiveLogV { combats: mid.combats.update(0, combat_step(mid.combats[0], e)), ..mid }
    } else {
        mid
    }
}

/// How one event changes the data log: a dive start prepends a fresh dive, a
/// point-of-view announcement sets the stored name, and every other event
/// goes to the newest dive, or is dropped when no dive is active yet.
pub open spec fn datalog_step(dl: DataLogV, e: EventV) -> DataLogV {
    match e {
        EventV::StartDive(_) => DataLogV { dives: dl.dives.insert(0, dive_zero()), ..dl },
        EventV::SetSelf(_, name) => DataLogV { pov: Some(name), ..dl },
        _ => {
            if dl.dives.len() > 0 {
                DataLogV { dives: dl.dives.update(0, dive_step(dl.dives[0], e)), ..dl }
            } else {
                dl
            }
        },
    }
}

/// The data log after a whole sequence of events, applied in order.
pub open spec fn datalog_steps(dl: DataLogV, es: Seq<EventV>) -> DataLogV
    decreases es.len(),
{
    if es.len() == 0 {
        dl
    } else {
        datalog_steps(datalog_step(dl, es[0]), es.drop_first())
    }
}

/// Label for a position in a most-recent-first list: entries are numbered
/// from the oldest up, and the newest carries a marker.
pub fn inverted_number_label(current: usize, total: usize) -> (r: String)
    requires
        current <= total,
    ensures
        r@ == dec_rep((total - current) as nat) + (if current == 0 {
            " (current)"@
        } else {
            Seq::<char>::empty()
        }),
{
    let mut s = u64_to_string((total - current) as u64);
    if current == 0 {
        s.append(" (current)");
    } else {
        proof {
            assert(s@ + Seq::<char>::empty() =~= s@);
        }
    }
    s
}

/// Applying one batch of events and then another is the same as applying
/// their concatenation: events reach the data log in input order, and
/// batching changes nothing but when the work happens.
pub proof fn lemma_datalog_steps_concat(dl: DataLogV, es1: Seq<EventV>, es2: Seq<EventV>)
    ensures
        datalog_steps(datalog_steps(dl, es1), es2) == datalog_steps(dl, es1 + es2),
    decreases es1.len(),
{
    if es1.len() == 0 {
        assert(es1 + es2 =~= es2);
    } else {
        lemma_datalog_steps_concat(datalog_step(dl, es1[0]), es1.drop_first(), es2);
        assert((es1 + es2)[0] == es1[0]);
        assert((es1 + es2).drop_first() =~= es1.drop_first() + es2);
    }
}

impl CombatLog {
    /// Statistics are well formed.
    pub open spec fn wf(&self) -> bool {
        self.player_stats.wf()
    }

    fn new() -> (r: CombatLog)
        ensures
            r@ == combat_zero(),
            r.wf(),
    {
        CombatLog { player_stats: PlayerStatList::new() }
    }

    fn handle_event(&mut self, event: Event)
        requires
            old(self).wf(),
        ensures
            final(self).wf(),
            final(self)@ == combat_step(old(self)@, event@),
    {
        match event {
            Event::DamageDealt(_, dmg) => self.player_stats.apply_dealt_damage(dmg),
            Event::DamageReceived(_, dmg) => self.player_stats.apply_received_damage(dmg),
            Event::OrbPickup(_, player) => self.player_stats.apply_orb_pickup(player),
            Event::AddStatusEffect(_, data) => self.player_stats.apply_status_effects(data),
            _ => (),
        }
    }
}

impl DiveLog {
    /// Statistics and every combat are well formed.
    pub open spec fn wf(&self) -> bool {
        &&& self.player_stats.wf()
        &&& forall|i: int| 0 <= i < self.combats@.len() ==> (#[trigger] self.combats@[i]).wf()
    }

    /// An empty dive.
    pub fn new() -> (r: DiveLog)
        ensures
            r@ == dive_zero(),
            r.wf(),
    {
        let r = DiveLog { player_stats: PlayerStatList::new(), combats: Vec::new() };
        proof {
            assert(r@.combats =~= Seq::<CombatLogV>::empty());
        }
        r
    }

    /// Route one event through this dive: aggregate it dive-wide and forward
    /// it unchanged to the newest combat.
    pub fn handle_event(&mut self, event: Event)
        requires
            old(self).wf(),
        ensures
            final(self).wf(),
            final(self)@ == dive_step(old(self)@, event@),
    {
        match event.clone() {
            Event::StartCombat(_) => {
                self.combats.insert(0, CombatLog::new());
                proof {
                    assert(self@.combats =~= old(self)@.combats.insert(0, combat_zero()));
                }
            },
            Event::DamageDealt(_, dmg) => self.player_stats.apply_dealt_damage(dmg),
            Event::DamageReceived(_, dmg) => self.player_stats.apply_received_damage(dmg),
            Event::OrbPickup(_, player) => self.player_stats.apply_orb_pickup(player),
            Event::AddStatusEffect(_, data) => self.player_stats.apply_status_effects(data),
            _ => (),
        }
        let ghost mid = self@;
        if self.combats.len() > 0 {
            let head = &mut self.combats[0];
            head.handle_event(event);
            proof {
                assert(self@.combats =~= mid.combats.update(
                    0,
                    combat_step(mid.combats[0], event@),
                ));
            }
        }
    }
}

impl DataLog {
    /// Every dive is well formed.
    pub open spec fn wf(&self) -> bool {
        forall|i: int| 0 <= i < self.dives@.len() ==> (#[trigger] self.dives@[i]).wf()
    }

    /// An empty data log: no dives, no point-of-view name.
    pub fn new() -> (r: DataLog)
        ensures
            r@.dives == Seq::<DiveLogV>::empty(),
            r@.pov is None,
            r.wf(),
    {
        let r = DataLog { dives: Vec::new(), pov: None };
        proof {
            assert(r@.dives =~= Seq::<DiveLogV>::empty());
        }
        r
    }

    /// Route one event: a dive start opens a new dive, a point-of-view
    /// announcement records the name, and everything else goes to the newest
    /// dive, or is dropped when none is active.
    pub fn handle_event(&mut self, event: Event)
        requires
            old(self).wf(),
        ensures
            final(self).wf(),
            final(self)@ == datalog_step(old(self)@, event@),
    {
        match event {
            Event::StartDive(_) => {
                self.dives.insert(0, DiveLog::new());
                proof {
                    assert(self@.dives =~= old(self)@.dives.insert(0, dive_zero()));
                }
            },
            Event::SetSelf(_, name) => {
                self.pov = Some(name);
            },
            _ => {
                if self.dives.len() > 0 {
                    let ghost oldd = self@;
                    let head = &mut self.dives[0];
                    head.handle_event(event);
                    proof {
                        assert(self@.dives =~= oldd.dives.update(
                            0,
                            dive_step(oldd.dives[0], event@),
                        ));
                    }
                }
            },
        }
    }

    /// Apply a whole batch of events, in order.
    pub fn handle_events(&mut self, events: Vec<Event>)
        requires
            old(self).wf(),
        ensures
            final(self).wf(),
            final(self)@ == datalog_steps(old(self)@, events@.map_values(|e: Event| e@)),
    {
        let ghost evs = events@.map_values(|e: Event| e@);
        let mut events = events;
        while events.len() > 0
            invariant
                self.wf(),
                datalog_steps(old(self)@, evs) == datalog_steps(
                    self@,
                    events@.map_values(|e: Event| e@),
                ),
            decreases events@.len(),
        {
            let ghost before = events@.map_values(|e: Event| e@);
            let e = events.remove(0);
            proof {
                assert(events@.map_values(|ev: Event| ev@) =~= before.drop_first());
                assert(before[0] == e@);
            }
            self.handle_event(e);
        }
        proof {
            assert(events@.map_values(|e: Event| e@) =~= Seq::<EventV>::empty());
        }
    }
}

} // verus!
