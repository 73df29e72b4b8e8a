//! The log parser: it owns the identity caches (handle to name, handle to
//! class), runs the classifier over each line, resolves entities against the
//! caches, and turns raw payloads into directional domain events.

use vstd::prelude::*;
use std::collections::HashMap;
use crate::aspects::Aspect;
use crate::aspects::AspectV;
use crate::aspects::aspect_of_code;
use crate::classify::InternalEvent;
use crate::classify::InternalEventV;
use crate::classify::ParseEvent;
use crate::classify::ParseEventV;
use crate::classify::classify_line;
use crate::classify::classify_spec;
use crate::events::DamageDirection;
use crate::events::DamageDirectionV;
use crate::events::DamageEventData;
use crate::events::DamageEventDataV;
use crate::events::AddStatusEffectDataV;
use crate::events::Entity;
use crate::events::EntityV;
use crate::events::Event;
use crate::events::EventV;
use crate::events::PlayerData;
use crate::events::PlayerDataV;
use crate::events::direction_of;
use crate::text::dec_rep_i64;
use crate::text::i64_to_string;

verus! {

broadcast use vstd::std_specs::hash::group_hash_axioms;

/// The parser's caches: what the numeric handles are known to name.
#[derive(Debug)]
pub struct LogParser {
    players: HashMap<i64, String>,
    classes: HashMap<i64, Aspect>,
}

/// Model of the parser: both caches as maps over the handle's value.
pub struct LogParserV {
    pub players: Map<int, Seq<char>>,
    pub classes: Map<int, AspectV>,
}

/// The name cache as a mathematical map.
pub open spec fn players_view(m: Map<i64, String>) -> Map<int, Seq<char>> {
    Map::new(
        |k: int| i64::MIN <= k <= i64::MAX && m.contains_key(k as i64),
        |k: int| m[k as i64]@,
    )
}

/// The class cache as a mathematical map.
pub open spec fn classes_view(m: Map<i64, Aspect>) -> Map<int, AspectV> {
    Map::new(
        |k: int| i64::MIN <= k <= i64::MAX && m.contains_key(k as i64),
        |k: int| m[k as i64]@,
    )
}

impl View for LogParser {
    type V = LogParserV;

    closed spec fn view(&self) -> LogParserV {
        LogParserV { players: players_view(self.players@), classes: classes_view(self.classes@) }
    }
}

/// Resolution: an opaque handle becomes a resolved player once the name
/// cache knows it; its class falls back to the unknown tag carrying the
/// handle's decimal representation when only the name is known. A handle
/// with no cached name stays opaque, and a resolved player stays as it is.
pub open spec fn resolve_entity(p: LogParserV, e: EntityV) -> EntityV {
    match e {
        EntityV::Player(_) => e,
        EntityV::Id(id) => {
            if p.players.contains_key(id) {
                EntityV::Player(
                    PlayerDataV {
                        name: p.players[id],
                        class: if p.classes.contains_key(id) {
                            p.classes[id]
                        } else {
                            AspectV::Unknown(dec_rep_i64(id))
                        },
                        id: id,
                    },
                )
            } else {
                e
            }
        },
    }
}

/// A raw damage payload, resolved and classified into its direction.
pub open spec fn damage_event_spec(p: LogParserV, l: Seq<char>, d: DamageEventDataV) -> EventV {
    let rd = DamageEventDataV {
        source: resolve_entity(p, d.source),
        target: resolve_entity(p, d.target),
        ..d
    };
    match direction_of(rd) {
        DamageDirectionV::Dealt(x) => EventV::DamageDealt(l, x),
        DamageDirectionV::Received(x) => EventV::DamageReceived(l, x),
        DamageDirectionV::EnemyToEnemy(x) => EventV::DamageOther(l, x),
        DamageDirectionV::PlayerToPlayer(x) => EventV::DamageOther(l, x),
    }
}

/// How one line changes the parser and what it emits: registrations feed the
/// caches silently, a dive-end signal clears both caches and emits the
/// dive-end event, damage is resolved and tagged with its direction, status
/// events are resolved and always emitted, an orb pickup by an unresolved
/// handle is dropped, and unrecognized lines emit nothing.
pub open spec fn parser_step(p: LogParserV, line: Seq<char>) -> (LogParserV, Option<EventV>) {
    match classify_spec(line) {
        ParseEventV::Parsed(ev) => (p, Some(ev)),
        ParseEventV::Internal(ie) => match ie {
            InternalEventV::Unknown(_) => (p, None::<EventV>),
            InternalEventV::RegisterName(_, id, name) => (
                LogParserV { players: p.players.insert(id, name), ..p },
                None,
            ),
            InternalEventV::UnitClass(_, id, code) => (
                LogParserV { classes: p.classes.insert(id, aspect_of_code(code)), ..p },
                None,
            ),
            InternalEventV::EndDive(l) => (
                LogParserV { players: Map::empty(), classes: Map::empty() },
                Some(EventV::EndDive(l)),
            ),
            InternalEventV::Damage(l, d) => (p, Some(damage_event_spec(p, l, d))),
            InternalEventV::AddStatusEffect(l, d) => (
                p,
                Some(
                    EventV::AddStatusEffect(
                        l,
                        AddStatusEffectDataV {
                            source: resolve_entity(p, d.source),
                            target: resolve_entity(p, d.target),
                            ..d
                        },
                    ),
                ),
            ),
            InternalEventV::OrbPickup(l, ent) => match resolve_entity(p, ent) {
                EntityV::Player(pd) => (p, Some(EventV::OrbPickup(l, pd))),
                EntityV::Id(_) => (p, None),
            },
        },
    }
}

/// The parser and the emitted events after a whole sequence of lines, in
/// order: lines that emit nothing are filtered out, and the rest keep their
/// order.
pub open spec fn parser_steps(p: LogParserV, lines: Seq<Seq<char>>) -> (LogParserV, Seq<EventV>)
    decreases lines.len(),
{
    if lines.len() == 0 {
        (p, Seq::empty())
    } else {
        let first = parser_step(p, lines[0]);
        let rest = parser_steps(first.0, lines.drop_first());
        (
            rest.0,
            match first.1 {
                Some(e) => seq![e] + rest.1,
                None => rest.1,
            },
        )
    }
}

proof fn lemma_players_view_insert(m: Map<i64, String>, k: i64, v: String)
    ensures
        players_view(m.insert(k, v)) =~= players_view(m).insert(k as int, v@),
{
    assert forall|x: int| #[trigger]
        players_view(m.insert(k, v)).contains_key(x) == players_view(m).insert(
            k as int,
            v@,
        ).contains_key(x) by {
        if i64::MIN <= x <= i64::MAX && x != k as int {
            assert((x as i64) as int == x);
        }
    }
    assert forall|x: int|
        players_view(m.insert(k, v)).contains_key(x) implies #[trigger] players_view(
        m.insert(k, v),
    )[x] == players_view(m).insert(k as int, v@)[x] by {
        if x != k as int {
            assert((x as i64) as int == x);
        }
    }
}

proof fn lemma_classes_view_insert(m: Map<i64, Aspect>, k: i64, v: Aspect)
    ensures
        classes_view(m.insert(k, v)) =~= classes_view(m).insert(k as int, v@),
{
    assert forall|x: int| #[trigger]
        classes_view(m.insert(k, v)).contains_key(x) == classes_view(m).insert(
            k as int,
            v@,
        ).contains_key(x) by {
        if i64::MIN <= x <= i64::MAX && x != k as int {
            assert((x as i64) as int == x);
        }
    }
    assert forall|x: int|
        classes_view(m.insert(k, v)).contains_key(x) implies #[trigger] classes_view(
        m.insert(k, v),
    )[x] == classes_view(m).insert(k as int, v@)[x] by {
        if x != k as int {
            assert((x as i64) as int == x);
        }
    }
}

proof fn lemma_players_view_empty()
    ensures
        players_view(Map::empty()) =~= Map::<int, Seq<char>>::empty(),
{
}

proof fn lemma_classes_view_empty()
    ensures
        classes_view(Map::empty()) =~= Map::<int, AspectV>::empty(),
{
}

impl LogParser {
    /// A parser with both caches empty.
    pub fn new() -> (r: LogParser)
        ensures
            r@.players == Map::<int, Seq<char>>::empty(),
            r@.classes == Map::<int, AspectV>::empty(),
    {
        let r = LogParser { players: HashMap::new(), classes: HashMap::new() };
        proof {
            lemma_players_view_empty();
            lemma_classes_view_empty();
        }
        r
    }

    /// Classify one line, without touching the caches. The result depends on
    /// the line alone: classification is total and deterministic.
    pub fn do_parse(&self, line: &str) -> (r: ParseEvent)
        ensures
            r@ == classify_spec(line@),
    {
        classify_line(line)
    }

    /// Resolve one entity against the caches.
    fn to_player(&self, e: Entity) -> (r: Entity)
        ensures
            r@ == resolve_entity(self@, e@),
    {
        match e {
            Entity::Player(p) => Entity::Player(p),
            Entity::Id(id) => {
                match self.players.get(&id) {
                    Some(name) => {
                        let name = name.clone();
                        let class = match self.classes.get(&id) {
                            Some(c) => c.clone(),
                            None => Aspect::Unknown(i64_to_string(id)),
                        };
                        Entity::Player(PlayerData { name, class, id })
                    },
                    None => Entity::Id(id),
                }
            },
        }
    }

    /// Resolve a raw damage payload and tag it with its direction.
    fn convert_damage(&self, line: String, dmg: DamageEventData) -> (r: Event)
        ensures
            r@ == damage_event_spec(self@, line@, dmg@),
    {
        let resolved = DamageEventData {
            source: self.to_player(dmg.source),
            target: self.to_player(dmg.target),
            amount: dmg.amount,
            ability: dmg.ability,
            crit: dmg.crit,
            dodged: dmg.dodged,
        };
        match resolved.direction() {
            DamageDirection::Dealt(d) => Event::DamageDealt(line, d),
            DamageDirection::Received(d) => Event::DamageReceived(line, d),
            DamageDirection::EnemyToEnemy(d) => Event::DamageOther(line, d),
            DamageDirection::PlayerToPlayer(d) => Event::DamageOther(line, d),
        }
    }

    /// Parse one line: classify it, feed or clear the caches, and emit the
    /// resolved domain event, if the line yields one.
    pub fn parse_line(&mut self, line: &str) -> (r: Option<Event>)
        ensures
            final(self)@ == parser_step(old(self)@, line@).0,
            match r {
                Some(e) => parser_step(old(self)@, line@).1 == Some(e@),
                None => parser_step(old(self)@, line@).1 is None,
            },
    {
        match self.do_parse(line) {
            ParseEvent::Parsed(event) => Some(event),
            ParseEvent::Internal(InternalEvent::Unknown(_)) => None,
            ParseEvent::Internal(InternalEvent::RegisterName(_, id, name)) => {
                let ghost oldm = self.players@;
                self.players.insert(id, name);
                proof {
                    lemma_players_view_insert(oldm, id, self.players@[id]);
                }
                None
            },
            ParseEvent::Internal(InternalEvent::Damage(l, dmg)) => Some(self.convert_damage(l, dmg)),
            ParseEvent::Internal(InternalEvent::AddStatusEffect(l, data)) => {
                let mut data = data;
                data.source = self.to_player(data.source);
                data.target = self.to_player(data.target);
                Some(Event::AddStatusEffect(l, data))
            },
            ParseEvent::Internal(InternalEvent::OrbPickup(l, ent)) => {
                match self.to_player(ent) {
                    Entity::Id(_) => None,
                    Entity::Player(p) => Some(Event::OrbPickup(l, p)),
                }
            },
            ParseEvent::Internal(InternalEvent::UnitClass(_, id, code)) => {
                let ghost oldm = self.classes@;
                let class = Aspect::from_id(code.as_str());
                self.classes.insert(id, class);
                proof {
                    lemma_classes_view_insert(oldm, id, self.classes@[id]);
                }
                None
            },
            ParseEvent::Internal(InternalEvent::EndDive(l)) => {
                self.players.clear();
                self.classes.clear();
                proof {
                    lemma_players_view_empty();
                    lemma_classes_view_empty();
                }
                Some(Event::EndDive(l))
            },
        }
    }

    /// Parse multiple lines, in order, keeping the events of the lines that
    /// yield one. The result may be empty if no line was useful.
    pub fn parse_lines(&mut self, lines: &[&str]) -> (r: Vec<Event>)
        ensures
            final(self)@ == parser_steps(old(self)@, lines@.map_values(|s: &str| s@)).0,
            r@.map_values(|e: Event| e@) == parser_steps(
                old(self)@,
                lines@.map_values(|s: &str| s@),
            ).1,
    {
        let ghost ls = lines@.map_values(|s: &str| s@);
        let mut out: Vec<Event> = Vec::new();
        let n = lines.len();
        let mut i: usize = 0;
        proof {
            assert(ls.skip(0) =~= ls);
            assert(Seq::<EventV>::empty() + parser_steps(self@, ls).1 =~= parser_steps(
                self@,
                ls,
            ).1);
        }
        while i < n
            invariant
                i <= n,
                n == lines@.len(),
                ls == lines@.map_values(|s: &str| s@),
                parser_steps(old(self)@, ls).0 == parser_steps(self@, ls.skip(i as int)).0,
                parser_steps(old(self)@, ls).1 == out@.map_values(|e: Event| e@) + parser_steps(
                    self@,
                    ls.skip(i as int),
                ).1,
            decreases n - i,
        {
            let ghost preout = out@.map_values(|e: Event| e@);
            let line: &str = lines[i];
            proof {
                assert(ls.skip(i as int)[0] == line@);
                assert(ls.skip(i as int).drop_first() =~= ls.skip(i as int + 1));
            }
            let r = self.parse_line(line);
            match r {
                Some(e) => {
                    out.push(e);
                    proof {
                        assert(out@.map_values(|e: Event| e@) =~= preout + seq![out@.last()@]);
                        assert(preout + (seq![out@.last()@] + parser_steps(
                            self@,
                            ls.skip(i as int + 1),
                        ).1) =~= (preout + seq![out@.last()@]) + parser_steps(
                            self@,
                            ls.skip(i as int + 1),
                        ).1);
                    }
                },
                None => (),
            }
            i += 1;
        }
        proof {
            assert(ls.skip(n as int) =~= Seq::<Seq<char>>::empty());
            assert(out@.map_values(|e: Event| e@) + Seq::<EventV>::empty() =~= out@.map_values(
                |e: Event| e@,
            ));
        }
        out
    }
}

impl Default for LogParser {
    /// The default parser has empty caches.
    fn default() -> (r: Self)
        ensures
            r@.players == Map::<int, Seq<char>>::empty(),
            r@.classes == Map::<int, AspectV>::empty(),
    {
        Self::new()
    }
}

/// Both identity caches are cleared by a dive-end signal: a handle
/// resolvable before the signal is unresolved after it, whatever else the
/// caches held.
pub proof fn lemma_dive_end_clears_caches(p: LogParserV, line: Seq<char>, id: int)
    requires
        classify_spec(line) matches ParseEventV::Internal(InternalEventV::EndDive(_)),
    ensures
        parser_step(p, line).0.players == Map::<int, Seq<char>>::empty(),
        parser_step(p, line).0.classes == Map::<int, AspectV>::empty(),
        resolve_entity(parser_step(p, line).0, EntityV::Id(id)) == EntityV::Id(id),
{
}

/// An orb pickup whose handle no cache resolves emits nothing and leaves the
/// parser unchanged: no statistics record can be created or touched by it.
pub proof fn lemma_orb_unresolved_dropped(p: LogParserV, line: Seq<char>, id: int)
    requires
        classify_spec(line) == ParseEventV::Internal(
            InternalEventV::OrbPickup(line, EntityV::Id(id)),
        ),
        !p.players.contains_key(id),
    ensures
        parser_step(p, line).1 is None,
        parser_step(p, line).0 == p,
{
}

/// Parsing one burst of lines and then another is the same as parsing their
/// concatenation: the cache state carries over and the events keep their
/// order across the seam.
pub proof fn lemma_parser_steps_concat(p: LogParserV, l1: Seq<Seq<char>>, l2: Seq<Seq<char>>)
    ensures
        parser_steps(p, l1 + l2).0 == parser_steps(parser_steps(p, l1).0, l2).0,
        parser_steps(p, l1 + l2).1 == parser_steps(p, l1).1 + parser_steps(
            parser_steps(p, l1).0,
            l2,
        ).1,
    decreases l1.len(),
{
    if l1.len() == 0 {
        assert(l1 + l2 =~= l2);
        assert(Seq::<EventV>::empty() + parser_steps(p, l2).1 =~= parser_steps(p, l2).1);
    } else {
        let first = parser_step(p, l1[0]);
        lemma_parser_steps_concat(first.0, l1.drop_first(), l2);
        assert((l1 + l2)[0] == l1[0]);
        assert((l1 + l2).drop_first() =~= l1.drop_first() + l2);
        match first.1 {
            Some(e) => {
                assert(seq![e] + (parser_steps(first.0, l1.drop_first()).1 + parser_steps(
                    parser_steps(first.0, l1.drop_first()).0,
                    l2,
                ).1) =~= (seq![e] + parser_steps(first.0, l1.drop_first()).1) + parser_steps(
                    parser_steps(first.0, l1.drop_first()).0,
                    l2,
                ).1);
            },
            None => {},
        }
    }
}

} // verus!
