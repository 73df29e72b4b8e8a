//! The line classifier: one line of raw text is matched against a strict,
//! ordered cascade of patterns; the first match wins. A pattern is a chain
//! of anchors (literal fragments located left to right) with digit, word and
//! True/False captures between them. The whole grammar is stated as spec
//! functions over the line's characters, and the exec classifier is proved
//! to return exactly what the grammar says.

use vstd::prelude::*;
use vstd::string::StrSliceExecFns;
use crate::events::AddStatusEffectData;
use crate::events::AddStatusEffectDataV;
use crate::events::DamageEventData;
use crate::events::DamageEventDataV;
use crate::events::Entity;
use crate::events::EntityV;
use crate::events::Event;
use crate::events::EventV;
use crate::events::TargetUnitTeam;
use crate::events::TargetUnitTeamV;
use crate::text::chars_eq_str;
use crate::text::chars_vec;
use crate::text::dec_val;
use crate::text::digit_run_end;
use crate::text::find;
use crate::text::find_from;
use crate::text::lit_at;
use crate::text::match_at;
use crate::text::parse_num;
use crate::text::scan_digits;
use crate::text::scan_word;
use crate::text::word_run_end;

verus! {

/// A bookkeeping event: it feeds the parser's caches or is resolved into a
/// domain event, but is never published as classified.
#[derive(Debug, PartialEq)]
pub enum InternalEvent {
    Damage(String, DamageEventData),
    AddStatusEffect(String, AddStatusEffectData),
    OrbPickup(String, Entity),
    RegisterName(String, i64, String),
    UnitClass(String, i64, String),
    EndDive(String),
    Unknown(String),
}

/// Model of a bookkeeping event.
pub enum InternalEventV {
    Damage(Seq<char>, DamageEventDataV),
    AddStatusEffect(Seq<char>, AddStatusEffectDataV),
    OrbPickup(Seq<char>, EntityV),
    RegisterName(Seq<char>, int, Seq<char>),
    UnitClass(Seq<char>, int, Seq<char>),
    EndDive(Seq<char>),
    Unknown(Seq<char>),
}

impl View for InternalEvent {
    type V = InternalEventV;

    open spec fn view(&self) -> InternalEventV {
        match self {
            InternalEvent::Damage(l, d) => InternalEventV::Damage(l@, d@),
            InternalEvent::AddStatusEffect(l, d) => InternalEventV::AddStatusEffect(l@, d@),
            InternalEvent::OrbPickup(l, e) => InternalEventV::OrbPickup(l@, e@),
            InternalEvent::RegisterName(l, id, n) => InternalEventV::RegisterName(
                l@,
                *id as int,
                n@,
            ),
            InternalEvent::UnitClass(l, id, c) => InternalEventV::UnitClass(l@, *id as int, c@),
            InternalEvent::EndDive(l) => InternalEventV::EndDive(l@),
            InternalEvent::Unknown(l) => InternalEventV::Unknown(l@),
        }
    }
}

/// What classification yields: a directly publishable domain event, or a
/// bookkeeping event.
#[derive(Debug, PartialEq)]
pub enum ParseEvent {
    Internal(InternalEvent),
    Parsed(Event),
}

/// Model of a classification result.
pub enum ParseEventV {
    Internal(InternalEventV),
    Parsed(EventV),
}

impl View for ParseEvent {
    type V = ParseEventV;

    open spec fn view(&self) -> ParseEventV {
        match self {
            ParseEvent::Internal(i) => ParseEventV::Internal(i@),
            ParseEvent::Parsed(e) => ParseEventV::Parsed(e@),
        }
    }
}

/// Position just past the first occurrence of an anchor at or after `from`.
pub open spec fn after_lit(line: Seq<char>, from: int, lit: Seq<char>) -> Option<int> {
    match find_from(line, lit, from) {
        Some(i) => Some(i + lit.len()),
        None => None::<int>,
    }
}

/// A nonempty digit run at `p` whose value fits an `i64`: the value and the
/// position just past the run.
pub open spec fn spec_num(line: Seq<char>, p: int) -> Option<(int, int)> {
    let end = digit_run_end(line, p);
    if end == p {
        None::<(int, int)>
    } else {
        let v = dec_val(line.subrange(p, end));
        if v > i64::MAX {
            None::<(int, int)>
        } else {
            Some((v, end))
        }
    }
}

/// The literal exactly at `p`: the position just past it.
pub open spec fn spec_lit(line: Seq<char>, p: int, lit: Seq<char>) -> Option<int> {
    if match_at(line, lit, p) {
        Some(p + lit.len())
    } else {
        None::<int>
    }
}

/// `True` or `False` exactly at `p`.
pub open spec fn spec_bool(line: Seq<char>, p: int) -> Option<(bool, int)> {
    if match_at(line, "True"@, p) {
        Some((true, p + "True"@.len()))
    } else if match_at(line, "False"@, p) {
        Some((false, p + "False"@.len()))
    } else {
        None::<(bool, int)>
    }
}

/// A nonempty word run at `p`: its characters and the position past it.
pub open spec fn spec_word(line: Seq<char>, p: int) -> Option<(Seq<char>, int)> {
    let end = word_run_end(line, p);
    if end == p {
        None::<(Seq<char>, int)>
    } else {
        Some((line.subrange(p, end), end))
    }
}

/// A word run at `p` that ends in `suffix` with at least one character
/// before it: the characters before the suffix, and the position past the
/// whole run.
pub open spec fn spec_word_tail(line: Seq<char>, p: int, suffix: Seq<char>) -> Option<
    (Seq<char>, int),
> {
    let end = word_run_end(line, p);
    if end - p > suffix.len() && line.subrange(end - suffix.len(), end) == suffix {
        Some((line.subrange(p, end - suffix.len()), end))
    } else {
        None::<(Seq<char>, int)>
    }
}

/// The damage pattern: target and source handles, amount, crit and dodge
/// flags, and the ability name stripped of its `_Action` suffix.
pub open spec fn damage_pattern(line: Seq<char>) -> Option<DamageEventDataV> {
    match after_lit(line, 0, "EventOnUnitDamaged"@) {
        None => None::<DamageEventDataV>,
        Some(p) => match after_lit(line, p, "TargetUnitHandle:(EntityHandle:"@) {
            None => None,
            Some(p) => match spec_num(line, p) {
                None => None,
                Some((target, p)) => match spec_lit(line, p, ")"@) {
                    None => None,
                    Some(p) => match after_lit(line, p, "SourceEntityHandle:(EntityHandle:"@) {
                        None => None,
                        Some(p) => match spec_num(line, p) {
                            None => None,
                            Some((source, p)) => match spec_lit(line, p, ")"@) {
                                None => None,
                                Some(p) => match after_lit(line, p, "DamageAmount:"@) {
                                    None => None,
                                    Some(p) => match spec_num(line, p) {
                                        None => None,
                                        Some((amount, p)) => match after_lit(
                                            line,
                                            p,
                                            "IsCriticalHit:"@,
                                        ) {
                                            None => None,
                                            Some(p) => match spec_bool(line, p) {
                                                None => None,
                                                Some((crit, p)) => match spec_lit(
                                                    line,
                                                    p,
                                                    "-WasDodged:"@,
                                                ) {
                                                    None => None,
                                                    Some(p) => match spec_bool(line, p) {
                                                        None => None,
                                                        Some((dodged, p)) => match spec_lit(
                                                            line,
                                                            p,
                                                            "-ActionData:ActionData-"@,
                                                        ) {
                                                            None => None,
                                                            Some(p) => match spec_word_tail(
                                                                line,
                                                                p,
                                                                "_Action"@,
                                                            ) {
                                                                None => None,
                                                                Some((ability, _)) => Some(
                                                                    DamageEventDataV {
                                                                        source: EntityV::Id(source),
                                                                        target: EntityV::Id(target),
                                                                        amount: amount,
                                                                        ability: ability,
                                                                        crit: crit,
                                                                        dodged: dodged,
                                                                    },
                                                                ),
                                                            },
                                                        },
                                                    },
                                                },
                                            },
                                        },
                                    },
                                },
                            },
                        },
                    },
                },
            },
        },
    }
}

/// The class-registration pattern: a unit handle and its class code. It
/// matches more handles than players alone; a class registered for a
/// non-player handle has no later effect.
pub open spec fn unit_class_pattern(line: Seq<char>) -> Option<(int, Seq<char>)> {
    match after_lit(line, 0, "Setting unit class"@) {
        None => None::<(int, Seq<char>)>,
        Some(p) => match after_lit(line, p, "UnitEntityHandle:(EntityHandle:"@) {
            None => None,
            Some(p) => match spec_num(line, p) {
                None => None,
                Some((id, p)) => match spec_lit(line, p, ")-classType:"@) {
                    None => None,
                    Some(p) => match spec_word(line, p) {
                        None => None,
                        Some((code, _)) => Some((id, code)),
                    },
                },
            },
        },
    }
}

/// The name-registration pattern: a player name and its handle, seen when
/// the unit plays an ability.
pub open spec fn register_name_pattern(line: Seq<char>) -> Option<(int, Seq<char>)> {
    match after_lit(line, 0, " I "@) {
        None => None::<(int, Seq<char>)>,
        Some(p) => match spec_word(line, p) {
            None => None,
            Some((name, p)) => match spec_lit(line, p, " (EntityHandle:"@) {
                None => None,
                Some(p) => match spec_num(line, p) {
                    None => None,
                    Some((id, p)) => match spec_lit(line, p, ") is playing ability"@) {
                        None => None,
                        Some(_) => Some((id, name)),
                    },
                },
            },
        },
    }
}

/// The orb-pickup pattern: the picking unit's handle.
pub open spec fn orb_pickup_pattern(line: Seq<char>) -> Option<int> {
    match after_lit(line, 0, "PlayerUnitHandle:(EntityHandle:"@) {
        None => None::<int>,
        Some(p) => match spec_num(line, p) {
            None => None,
            Some((id, p)) => match spec_lit(line, p, ")"@) {
                None => None,
                Some(p) => match find_from(line, "PickupData-ManaOrbPickup"@, p) {
                    None => None,
                    Some(_) => Some(id),
                },
            },
        },
    }
}

/// The point-of-view pattern: the log owner's character name, between the
/// name anchor and the party-id anchor of a hub-join line.
pub open spec fn set_self_pattern(line: Seq<char>) -> Option<Seq<char>> {
    match after_lit(line, 0, "Joining hub"@) {
        None => None::<Seq<char>>,
        Some(p) => match after_lit(line, p, "characterName: "@) {
            None => None,
            Some(p) => match find_from(line, ", partyId"@, p) {
                None => None,
                Some(q) => Some(line.subrange(p, q)),
            },
        },
    }
}

/// The team a team word stands for.
pub open spec fn team_of_word(w: Seq<char>) -> TargetUnitTeamV {
    if w == "Friendly"@ {
        TargetUnitTeamV::Friendly
    } else if w == "Enemy"@ {
        TargetUnitTeamV::Enemy
    } else {
        TargetUnitTeamV::Unknown(w)
    }
}

/// The status-effect pattern: target and caster handles, the target's team,
/// the effect name stripped of its `_StatusEffect` suffix, the stacks added
/// and the resulting stack total.
pub open spec fn add_status_pattern(line: Seq<char>) -> Option<AddStatusEffectDataV> {
    match after_lit(line, 0, "EventOnUnitStatusEffectStacksAdded"@) {
        None => None::<AddStatusEffectDataV>,
        Some(p) => match after_lit(line, p, "TargetUnitEntityHandle:(EntityHandle:"@) {
            None => None,
            Some(p) => match spec_num(line, p) {
                None => None,
                Some((target, p)) => match spec_lit(
                    line,
                    p,
                    ")-CasterUnitEntityHandle:(EntityHandle:"@,
                ) {
                    None => None,
                    Some(p) => match spec_num(line, p) {
                        None => None,
                        Some((source, p)) => match spec_lit(line, p, ")-TargetUnitTeam:"@) {
                            None => None,
                            Some(p) => match spec_word(line, p) {
                                None => None,
                                Some((team, p)) => match after_lit(
                                    line,
                                    p,
                                    "StatusEffectData:StatusEffectData-"@,
                                ) {
                                    None => None,
                                    Some(p) => match spec_word_tail(line, p, "_StatusEffect"@) {
                                        None => None,
                                        Some((effect, p)) => match after_lit(
                                            line,
                                            p,
                                            "StacksAdded:"@,
                                        ) {
                                            None => None,
                                            Some(p) => match spec_num(line, p) {
                                                None => None,
                                                Some((added, p)) => match spec_lit(
                                                    line,
                                                    p,
                                                    "-NewStacksValue:"@,
                                                ) {
                                                    None => None,
                                                    Some(p) => match spec_num(line, p) {
                                                        None => None,
                                                        Some((newvalue, _)) => Some(
                                                            AddStatusEffectDataV {
                                                                source: EntityV::Id(source),
                                                                target: EntityV::Id(target),
                                                                target_team: team_of_word(team),
                                                                effectname: effect,
                                                                added: added,
                                                                newvalue: newvalue,
                                                            },
                                                        ),
                                                    },
                                                },
                                            },
                                        },
                                    },
                                },
                            },
                        },
                    },
                },
            },
        },
    }
}

/// The line holds the given fragment somewhere.
pub open spec fn contains_lit(line: Seq<char>, lit: Seq<char>) -> bool {
    find_from(line, lit, 0) is Some
}

/// The whole ordered cascade: the first matching pattern decides the
/// classification, and a line no pattern matches is unrecognized.
pub open spec fn classify_spec(line: Seq<char>) -> ParseEventV {
    match damage_pattern(line) {
        Some(d) => ParseEventV::Internal(InternalEventV::Damage(line, d)),
        None => match unit_class_pattern(line) {
            Some((id, code)) => ParseEventV::Internal(InternalEventV::UnitClass(line, id, code)),
            None => match register_name_pattern(line) {
                Some((id, name)) => ParseEventV::Internal(
                    InternalEventV::RegisterName(line, id, name),
                ),
                None => match orb_pickup_pattern(line) {
                    Some(id) => ParseEventV::Internal(
                        InternalEventV::OrbPickup(line, EntityV::Id(id)),
                    ),
                    None => match set_self_pattern(line) {
                        Some(name) => ParseEventV::Parsed(EventV::SetSelf(line, name)),
                        None => match add_status_pattern(line) {
                            Some(d) => ParseEventV::Internal(
                                InternalEventV::AddStatusEffect(line, d),
                            ),
                            None => if contains_lit(line, "Party run start triggered"@) {
                                ParseEventV::Parsed(EventV::StartDive(line))
                            } else if contains_lit(line, "EventOnCombatStarted"@) {
                                ParseEventV::Parsed(EventV::StartCombat(line))
                            } else if contains_lit(line, "EventOnCombatEndSequenceStarted"@) {
                                ParseEventV::Parsed(EventV::EndCombat(line))
                            } else if contains_lit(line, "QuestObjective_TurnCount"@) {
                                ParseEventV::Parsed(EventV::NextTurn(line))
                            } else if contains_lit(line, "broadcasting EventSetGameState-EndRun"@) {
                                ParseEventV::Internal(InternalEventV::EndDive(line))
                            } else {
                                ParseEventV::Internal(InternalEventV::Unknown(line))
                            },
                        },
                    },
                },
            },
        },
    }
}

/// Exec: position just past the first occurrence of an anchor.
fn x_after_lit(hay: &Vec<char>, from: usize, lit: &Vec<char>) -> (r: Option<usize>)
    requires
        from <= hay@.len(),
    ensures
        match r {
            Some(p) => after_lit(hay@, from as int, lit@) == Some(p as int) && p <= hay@.len(),
            None => after_lit(hay@, from as int, lit@) is None,
        },
{
    let _hl = hay.len();
    match find(hay, lit, from) {
        Some(i) => Some(i + lit.len()),
        None => None,
    }
}

/// Exec: a digit capture.
fn x_num(hay: &Vec<char>, p: usize) -> (r: Option<(i64, usize)>)
    requires
        p <= hay@.len(),
    ensures
        match r {
            Some((v, end)) => spec_num(hay@, p as int) == Some((v as int, end as int)) && end
                <= hay@.len() && v >= 0,
            None => spec_num(hay@, p as int) is None,
        },
{
    let end = scan_digits(hay, p);
    if end == p {
        return None;
    }
    match parse_num(hay, p, end) {
        Some(v) => Some((v, end)),
        None => None,
    }
}

/// Exec: a literal expected exactly at `p`.
fn x_lit(hay: &Vec<char>, p: usize, lit: &Vec<char>) -> (r: Option<usize>)
    ensures
        match r {
            Some(q) => spec_lit(hay@, p as int, lit@) == Some(q as int) && q <= hay@.len(),
            None => spec_lit(hay@, p as int, lit@) is None,
        },
{
    let _hl = hay.len();
    if lit_at(hay, lit, p) {
        Some(p + lit.len())
    } else {
        None
    }
}

/// Exec: a `True` or `False` capture.
fn x_bool(hay: &Vec<char>, p: usize) -> (r: Option<(bool, usize)>)
    ensures
        match r {
            Some((b, q)) => spec_bool(hay@, p as int) == Some((b, q as int)) && q <= hay@.len(),
            None => spec_bool(hay@, p as int) is None,
        },
{
    let _hl = hay.len();
    let t = chars_vec("True");
    let f = chars_vec("False");
    if lit_at(hay, &t, p) {
        Some((true, p + t.len()))
    } else if lit_at(hay, &f, p) {
        Some((false, p + f.len()))
    } else {
        None
    }
}

/// Exec: a nonempty word capture, materialized as a `String`.
fn x_word(line: &str, hay: &Vec<char>, p: usize) -> (r: Option<(String, usize)>)
    requires
        hay@ == line@,
        p <= hay@.len(),
    ensures
        match r {
            Some((w, end)) => spec_word(hay@, p as int) == Some((w@, end as int)) && end
                <= hay@.len(),
            None => spec_word(hay@, p as int) is None,
        },
{
    let end = scan_word(hay, p);
    if end == p {
        return None;
    }
    let w = line.substring_char(p, end).to_owned();
    Some((w, end))
}

/// Exec: a word run ending in `suffix`, its head materialized as a `String`.
fn x_word_tail(line: &str, hay: &Vec<char>, p: usize, suffix: &Vec<char>) -> (r: Option<
    (String, usize),
>)
    requires
        hay@ == line@,
        p <= hay@.len(),
    ensures
        match r {
            Some((w, end)) => spec_word_tail(hay@, p as int, suffix@) == Some((w@, end as int))
                && end <= hay@.len(),
            None => spec_word_tail(hay@, p as int, suffix@) is None,
        },
{
    let end = scan_word(hay, p);
    if end > p && end - p > suffix.len() {
        let cut = end - suffix.len();
        if lit_at(hay, suffix, cut) {
            let w = line.substring_char(p, cut).to_owned();
            return Some((w, end));
        }
    }
    proof {
        let send = word_run_end(hay@, p as int);
        if send - p > suffix@.len() && hay@.subrange(send - suffix@.len(), send) == suffix@ {
            assert(match_at(hay@, suffix@, send - suffix@.len()));
        }
    }
    None
}

/// Exec: the damage pattern.
fn damage_exec(line: &str, hay: &Vec<char>) -> (r: Option<DamageEventData>)
    requires
        hay@ == line@,
    ensures
        match r {
            Some(d) => damage_pattern(line@) == Some(d@),
            None => damage_pattern(line@) is None,
        },
{
    let a1 = chars_vec("EventOnUnitDamaged");
    let p = match x_after_lit(hay, 0, &a1) {
        Some(p) => p,
        None => {
            return None;
        },
    };
    let a2 = chars_vec("TargetUnitHandle:(EntityHandle:");
    let p = match x_after_lit(hay, p, &a2) {
        Some(p) => p,
        None => {
            return None;
        },
    };
    let (target, p) = match x_num(hay, p) {
        Some(x) => x,
        None => {
            return None;
        },
    };
    let close = chars_vec(")");
    let p = match x_lit(hay, p, &close) {
        Some(p) => p,
        None => {
            return None;
        },
    };
    let a3 = chars_vec("SourceEntityHandle:(EntityHandle:");
    let p = match x_after_lit(hay, p, &a3) {
        Some(p) => p,
        None => {
            return None;
        },
    };
    let (source, p) = match x_num(hay, p) {
        Some(x) => x,
        None => {
            return None;
        },
    };
    let p = match x_lit(hay, p, &close) {
        Some(p) => p,
        None => {
            return None;
        },
    };
    let a4 = chars_vec("DamageAmount:");
    let p = match x_after_lit(hay, p, &a4) {
        Some(p) => p,
        None => {
            return None;
        },
    };
    let (amount, p) = match x_num(hay, p) {
        Some(x) => x,
        None => {
            return None;
        },
    };
    let a5 = chars_vec("IsCriticalHit:");
    let p = match x_after_lit(hay, p, &a5) {
        Some(p) => p,
        None => {
            return None;
        },
    };
    let (crit, p) = match x_bool(hay, p) {
        Some(x) => x,
        None => {
            return None;
        },
    };
    let a6 = chars_vec("-WasDodged:");
    let p = match x_lit(hay, p, &a6) {
        Some(p) => p,
        None => {
            return None;
        },
    };
    let (dodged, p) = match x_bool(hay, p) {
        Some(x) => x,
        None => {
            return None;
        },
    };
    let a7 = chars_vec("-ActionData:ActionData-");
    let p = match x_lit(hay, p, &a7) {
        Some(p) => p,
        None => {
            return None;
        },
    };
    let suffix = chars_vec("_Action");
    let (ability, _) = match x_word_tail(line, hay, p, &suffix) {
        Some(x) => x,
        None => {
            return None;
        },
    };
    Some(
        DamageEventData {
            source: Entity::Id(source),
            target: Entity::Id(target),
            amount,
            ability,
            crit,
            dodged,
        },
    )
}

/// Exec: the class-registration pattern.
fn unit_class_exec(line: &str, hay: &Vec<char>) -> (r: Option<(i64, String)>)
    requires
        hay@ == line@,
    ensures
        match r {
            Some((id, code)) => unit_class_pattern(line@) == Some((id as int, code@)) && id >= 0,
            None => unit_class_pattern(line@) is None,
        },
{
    let a1 = chars_vec("Setting unit class");
    let p = match x_after_lit(hay, 0, &a1) {
        Some(p) => p,
        None => {
            return None;
        },
    };
    let a2 = chars_vec("UnitEntityHandle:(EntityHandle:");
    let p = match x_after_lit(hay, p, &a2) {
        Some(p) => p,
        None => {
            return None;
        },
    };
    let (id, p) = match x_num(hay, p) {
        Some(x) => x,
        None => {
            return None;
        },
    };
    let a3 = chars_vec(")-classType:");
    let p = match x_lit(hay, p, &a3) {
        Some(p) => p,
        None => {
            return None;
        },
    };
    let (code, _) = match x_word(line, hay, p) {
        Some(x) => x,
        None => {
            return None;
        },
    };
    Some((id, code))
}

/// Exec: the name-registration pattern.
fn register_name_exec(line: &str, hay: &Vec<char>) -> (r: Option<(i64, String)>)
    requires
        hay@ == line@,
    ensures
        match r {
            Some((id, name)) => register_name_pattern(line@) == Some((id as int, name@)) && id
                >= 0,
            None => register_name_pattern(line@) is None,
        },
{
    let a1 = chars_vec(" I ");
    let p = match x_after_lit(hay, 0, &a1) {
        Some(p) => p,
        None => {
            return None;
        },
    };
    let (name, p) = match x_word(line, hay, p) {
        Some(x) => x,
        None => {
            return None;
        },
    };
    let a2 = chars_vec(" (EntityHandle:");
    let p = match x_lit(hay, p, &a2) {
        Some(p) => p,
        None => {
            return None;
        },
    };
    let (id, p) = match x_num(hay, p) {
        Some(x) => x,
        None => {
            return None;
        },
    };
    let a3 = chars_vec(") is playing ability");
    match x_lit(hay, p, &a3) {
        Some(_) => Some((id, name)),
        None => None,
    }
}

/// Exec: the orb-pickup pattern.
fn orb_pickup_exec(line: &str, hay: &Vec<char>) -> (r: Option<i64>)
    requires
        hay@ == line@,
    ensures
        match r {
            Some(id) => orb_pickup_pattern(line@) == Some(id as int) && id >= 0,
            None => orb_pickup_pattern(line@) is None,
        },
{
    let a1 = chars_vec("PlayerUnitHandle:(EntityHandle:");
    let p = match x_after_lit(hay, 0, &a1) {
        Some(p) => p,
        None => {
            return None;
        },
    };
    let (id, p) = match x_num(hay, p) {
        Some(x) => x,
        None => {
            return None;
        },
    };
    let close = chars_vec(")");
    let p = match x_lit(hay, p, &close) {
        Some(p) => p,
        None => {
            return None;
        },
    };
    let a2 = chars_vec("PickupData-ManaOrbPickup");
    match find(hay, &a2, p) {
        Some(_) => Some(id),
        None => None,
    }
}

/// Exec: the point-of-view pattern.
fn set_self_exec(line: &str, hay: &Vec<char>) -> (r: Option<String>)
    requires
        hay@ == line@,
    ensures
        match r {
            Some(name) => set_self_pattern(line@) == Some(name@),
            None => set_self_pattern(line@) is None,
        },
{
    let a1 = chars_vec("Joining hub");
    let p = match x_after_lit(hay, 0, &a1) {
        Some(p) => p,
        None => {
            return None;
        },
    };
    let a2 = chars_vec("characterName: ");
    let p = match x_after_lit(hay, p, &a2) {
        Some(p) => p,
        None => {
            return None;
        },
    };
    let a3 = chars_vec(", partyId");
    let q = match find(hay, &a3, p) {
        Some(q) => q,
        None => {
            return None;
        },
    };
    Some(line.substring_char(p, q).to_owned())
}

/// Exec: the status-effect pattern.
fn add_status_exec(line: &str, hay: &Vec<char>) -> (r: Option<AddStatusEffectData>)
    requires
        hay@ == line@,
    ensures
        match r {
            Some(d) => add_status_pattern(line@) == Some(d@),
            None => add_status_pattern(line@) is None,
        },
{
    let a1 = chars_vec("EventOnUnitStatusEffectStacksAdded");
    let p = match x_after_lit(hay, 0, &a1) {
        Some(p) => p,
        None => {
            return None;
        },
    };
    let a2 = chars_vec("TargetUnitEntityHandle:(EntityHandle:");
    let p = match x_after_lit(hay, p, &a2) {
        Some(p) => p,
        None => {
            return None;
        },
    };
    let (target, p) = match x_num(hay, p) {
        Some(x) => x,
        None => {
            return None;
        },
    };
    let a3 = chars_vec(")-CasterUnitEntityHandle:(EntityHandle:");
    let p = match x_lit(hay, p, &a3) {
        Some(p) => p,
        None => {
            return None;
        },
    };
    let (source, p) = match x_num(hay, p) {
        Some(x) => x,
        None => {
            return None;
        },
    };
    let a4 = chars_vec(")-TargetUnitTeam:");
    let p = match x_lit(hay, p, &a4) {
        Some(p) => p,
        None => {
            return None;
        },
    };
    let (team, p) = match x_word(line, hay, p) {
        Some(x) => x,
        None => {
            return None;
        },
    };
    let a5 = chars_vec("StatusEffectData:StatusEffectData-");
    let p = match x_after_lit(hay, p, &a5) {
        Some(p) => p,
        None => {
            return None;
        },
    };
    let suffix = chars_vec("_StatusEffect");
    let (effect, p) = match x_word_tail(line, hay, p, &suffix) {
        Some(x) => x,
        None => {
            return None;
        },
    };
    let a6 = chars_vec("StacksAdded:");
    let p = match x_after_lit(hay, p, &a6) {
        Some(p) => p,
        None => {
            return None;
        },
    };
    let (added, p) = match x_num(hay, p) {
        Some(x) => x,
        None => {
            return None;
        },
    };
    let a7 = chars_vec("-NewStacksValue:");
    let p = match x_lit(hay, p, &a7) {
        Some(p) => p,
        None => {
            return None;
        },
    };
    let (newvalue, _) = match x_num(hay, p) {
        Some(x) => x,
        None => {
            return None;
        },
    };
    let tv = chars_vec(team.as_str());
    let target_team = if chars_eq_str(&tv, "Friendly") {
        TargetUnitTeam::Friendly
    } else if chars_eq_str(&tv, "Enemy") {
        TargetUnitTeam::Enemy
    } else {
        TargetUnitTeam::Unknown(team)
    };
    Some(
        AddStatusEffectData {
            source: Entity::Id(source),
            target: Entity::Id(target),
            target_team,
            effectname: effect,
            added,
            newvalue,
        },
    )
}

/// Exec: the line holds the fragment somewhere.
fn contains_exec(hay: &Vec<char>, lit: &Vec<char>) -> (r: bool)
    ensures
        r == contains_lit(hay@, lit@),
{
    match find(hay, lit, 0) {
        Some(_) => true,
        None => false,
    }
}

/// Classify one line against the ordered pattern cascade. The result is
/// exactly what the grammar `classify_spec` says, so classification is total
/// and depends on the line alone.
pub fn classify_line(line: &str) -> (r: ParseEvent)
    ensures
        r@ == classify_spec(line@),
{
    let hay = chars_vec(line);
    if let Some(d) = damage_exec(line, &hay) {
        return ParseEvent::Internal(InternalEvent::Damage(line.to_owned(), d));
    }
    if let Some((id, code)) = unit_class_exec(line, &hay) {
        return ParseEvent::Internal(InternalEvent::UnitClass(line.to_owned(), id, code));
    }
    if let Some((id, name)) = register_name_exec(line, &hay) {
        return ParseEvent::Internal(InternalEvent::RegisterName(line.to_owned(), id, name));
    }
    if let Some(id) = orb_pickup_exec(line, &hay) {
        return ParseEvent::Internal(InternalEvent::OrbPickup(line.to_owned(), Entity::Id(id)));
    }
    if let Some(name) = set_self_exec(line, &hay) {
        return ParseEvent::Parsed(Event::SetSelf(line.to_owned(), name));
    }
    if let Some(d) = add_status_exec(line, &hay) {
        return ParseEvent::Internal(InternalEvent::AddStatusEffect(line.to_owned(), d));
    }
    let l1 = chars_vec("Party run start triggered");
    if contains_exec(&hay, &l1) {
        return ParseEvent::Parsed(Event::StartDive(line.to_owned()));
    }
    let l2 = chars_vec("EventOnCombatStarted");
    if contains_exec(&hay, &l2) {
        return ParseEvent::Parsed(Event::StartCombat(line.to_owned()));
    }
    let l3 = chars_vec("EventOnCombatEndSequenceStarted");
    if contains_exec(&hay, &l3) {
        return ParseEvent::Parsed(Event::EndCombat(line.to_owned()));
    }
    let l4 = chars_vec("QuestObjective_TurnCount");
    if contains_exec(&hay, &l4) {
        return ParseEvent::Parsed(Event::NextTurn(line.to_owned()));
    }
    let l5 = chars_vec("broadcasting EventSetGameState-EndRun");
    if contains_exec(&hay, &l5) {
        return ParseEvent::Internal(InternalEvent::EndDive(line.to_owned()));
    }
    ParseEvent::Internal(InternalEvent::Unknown(line.to_owned()))
}

} // verus!
