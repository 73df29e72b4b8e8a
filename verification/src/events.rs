//! The event data model: entities, damage and status payloads, and the
//! domain events routed through the session state machine. Each type has a
//! mathematical view; every contract in the crate speaks over these views.

use vstd::prelude::*;
use crate::aspects::Aspect;
use crate::aspects::AspectV;

verus! {

/// A combat participant: either an opaque numeric handle, or a resolved
/// player. Resolution is one-directional: an event stamped with an opaque
/// handle never becomes a resolved player retroactively.
#[derive(Debug, PartialEq)]
pub enum Entity {
    Id(i64),
    Player(PlayerData),
}

/// A resolved player: display name, class tag and the numeric handle.
#[derive(Debug, PartialEq)]
pub struct PlayerData {
    pub name: String,
    pub class: Aspect,
    pub id: i64,
}

/// Model of a resolved player.
pub struct PlayerDataV {
    pub name: Seq<char>,
    pub class: AspectV,
    pub id: int,
}

/// Model of an entity.
pub enum EntityV {
    Id(int),
    Player(PlayerDataV),
}

impl View for PlayerData {
    type V = PlayerDataV;

    open spec fn view(&self) -> PlayerDataV {
        PlayerDataV { name: self.name@, class: self.class@, id: self.id as int }
    }
}

impl View for Entity {
    type V = EntityV;

    open spec fn view(&self) -> EntityV {
        match self {
            Entity::Id(id) => EntityV::Id(*id as int),
            Entity::Player(p) => EntityV::Player(p@),
        }
    }
}

impl Clone for PlayerData {
    fn clone(&self) -> (r: Self)
        ensures
            r@ == self@,
    {
        PlayerData { name: self.name.clone(), class: self.class.clone(), id: self.id }
    }
}

impl Clone for Entity {
    fn clone(&self) -> (r: Self)
        ensures
            r@ == self@,
    {
        match self {
            Entity::Id(id) => Entity::Id(*id),
            Entity::Player(p) => Entity::Player(p.clone()),
        }
    }
}

/// A raw damage payload, before its direction is derived.
#[derive(Debug, PartialEq)]
pub struct DamageEventData {
    pub source: Entity,
    pub target: Entity,
    pub amount: i64,
    pub ability: String,
    pub crit: bool,
    pub dodged: bool,
}

/// Model of a raw damage payload.
pub struct DamageEventDataV {
    pub source: EntityV,
    pub target: EntityV,
    pub amount: int,
    pub ability: Seq<char>,
    pub crit: bool,
    pub dodged: bool,
}

impl View for DamageEventData {
    type V = DamageEventDataV;

    open spec fn view(&self) -> DamageEventDataV {
        DamageEventDataV {
            source: self.source@,
            target: self.target@,
            amount: self.amount as int,
            ability: self.ability@,
            crit: self.crit,
            dodged: self.dodged,
        }
    }
}

impl Clone for DamageEventData {
    fn clone(&self) -> (r: Self)
        ensures
            r@ == self@,
    {
        DamageEventData {
            source: self.source.clone(),
            target: self.target.clone(),
            amount: self.amount,
            ability: self.ability.clone(),
            crit: self.crit,
            dodged: self.dodged,
        }
    }
}

/// Damage dealt by a resolved player to an opaque handle.
#[derive(Debug, PartialEq)]
pub struct DamageDealtEventData {
    pub source: PlayerData,
    pub target: Entity,
    pub amount: i64,
    pub ability: String,
    pub crit: bool,
    pub dodged: bool,
}

/// Model of dealt damage.
pub struct DamageDealtEventDataV {
    pub source: PlayerDataV,
    pub target: EntityV,
    pub amount: int,
    pub ability: Seq<char>,
    pub crit: bool,
    pub dodged: bool,
}

impl View for DamageDealtEventData {
    type V = DamageDealtEventDataV;

    open spec fn view(&self) -> DamageDealtEventDataV {
        DamageDealtEventDataV {
            source: self.source@,
            target: self.target@,
            amount: self.amount as int,
            ability: self.ability@,
            crit: self.crit,
            dodged: self.dodged,
        }
    }
}

impl Clone for DamageDealtEventData {
    fn clone(&self) -> (r: Self)
        ensures
            r@ == self@,
    {
        DamageDealtEventData {
            source: self.source.clone(),
            target: self.target.clone(),
            amount: self.amount,
            ability: self.ability.clone(),
            crit: self.crit,
            dodged: self.dodged,
        }
    }
}

/// Damage received by a resolved player from an opaque handle.
#[derive(Debug, PartialEq)]
pub struct DamageReceivedEventData {
    pub source: Entity,
    pub target: PlayerData,
    pub amount: i64,
    pub ability: String,
    pub crit: bool,
    pub dodged: bool,
}

/// Model of received damage.
pub struct DamageReceivedEventDataV {
    pub source: EntityV,
    pub target: PlayerDataV,
    pub amount: int,
    pub ability: Seq<char>,
    pub crit: bool,
    pub dodged: bool,
}

impl View for DamageReceivedEventData {
    type V = DamageReceivedEventDataV;

    open spec fn view(&self) -> DamageReceivedEventDataV {
        DamageReceivedEventDataV {
            source: self.source@,
            target: self.target@,
            amount: self.amount as int,
            ability: self.ability@,
            crit: self.crit,
            dodged: self.dodged,
        }
    }
}

impl Clone for DamageReceivedEventData {
    fn clone(&self) -> (r: Self)
        ensures
            r@ == self@,
    {
        DamageReceivedEventData {
            source: self.source.clone(),
            target: self.target.clone(),
            amount: self.amount,
            ability: self.ability.clone(),
            crit: self.crit,
            dodged: self.dodged,
        }
    }
}

/// The derived direction of a damage event.
pub enum DamageDirection {
    Dealt(DamageDealtEventData),
    Received(DamageReceivedEventData),
    EnemyToEnemy(DamageEventData),
    PlayerToPlayer(DamageEventData),
}

/// Model of a damage direction.
pub enum DamageDirectionV {
    Dealt(DamageDealtEventDataV),
    Received(DamageReceivedEventDataV),
    EnemyToEnemy(DamageEventDataV),
    PlayerToPlayer(DamageEventDataV),
}

impl View for DamageDirection {
    type V = DamageDirectionV;

    open spec fn view(&self) -> DamageDirectionV {
        match self {
            DamageDirection::Dealt(d) => DamageDirectionV::Dealt(d@),
            DamageDirection::Received(d) => DamageDirectionV::Received(d@),
            DamageDirection::EnemyToEnemy(d) => DamageDirectionV::EnemyToEnemy(d@),
            DamageDirection::PlayerToPlayer(d) => DamageDirectionV::PlayerToPlayer(d@),
        }
    }
}

/// Direction of a damage payload: a pure function of the resolved or opaque
/// state of its source and target, and of nothing else.
pub open spec fn direction_of(d: DamageEventDataV) -> DamageDirectionV {
    match (d.source, d.target) {
        (EntityV::Id(_), EntityV::Id(_)) => DamageDirectionV::EnemyToEnemy(d),
        (EntityV::Player(_), EntityV::Player(_)) => DamageDirectionV::PlayerToPlayer(d),
        (EntityV::Player(p), EntityV::Id(id)) => DamageDirectionV::Dealt(
            DamageDealtEventDataV {
                source: p,
                target: EntityV::Id(id),
                amount: d.amount,
                ability: d.ability,
                crit: d.crit,
                dodged: d.dodged,
            },
        ),
        (EntityV::Id(id), EntityV::Player(p)) => DamageDirectionV::Received(
            DamageReceivedEventDataV {
                source: EntityV::Id(id),
                target: p,
                amount: d.amount,
                ability: d.ability,
                crit: d.crit,
                dodged: d.dodged,
            },
        ),
    }
}

/// Damage direction is a pure function of the resolved or opaque state of
/// source and target at the moment of conversion: a resolved source with an
/// opaque target is dealt damage, the reverse is received damage, and the
/// two symmetric cases are other damage; the amount, ability and flags pass
/// through unchanged in every case.
pub proof fn lemma_direction_by_resolution(d: DamageEventDataV)
    ensures
        (d.source is Player && d.target is Id) <==> direction_of(d) is Dealt,
        (d.source is Id && d.target is Player) <==> direction_of(d) is Received,
        (d.source is Id && d.target is Id) <==> direction_of(d) is EnemyToEnemy,
        (d.source is Player && d.target is Player) <==> direction_of(d) is PlayerToPlayer,
        match direction_of(d) {
            DamageDirectionV::Dealt(x) => x.amount == d.amount && x.ability == d.ability && x.crit
                == d.crit && x.dodged == d.dodged && EntityV::Player(x.source) == d.source
                && x.target == d.target,
            DamageDirectionV::Received(x) => x.amount == d.amount && x.ability == d.ability
                && x.crit == d.crit && x.dodged == d.dodged && x.source == d.source
                && EntityV::Player(x.target) == d.target,
            DamageDirectionV::EnemyToEnemy(x) => x == d,
            DamageDirectionV::PlayerToPlayer(x) => x == d,
        },
{
}

impl DamageEventData {
    /// Derive the direction of this damage payload.
    pub fn direction(self) -> (r: DamageDirection)
        ensures
            r@ == direction_of(self@),
    {
        match (self.source, self.target) {
            (Entity::Id(sid), Entity::Id(tid)) => DamageDirection::EnemyToEnemy(
                DamageEventData {
                    source: Entity::Id(sid),
                    target: Entity::Id(tid),
                    amount: self.amount,
                    ability: self.ability,
                    crit: self.crit,
                    dodged: self.dodged,
                },
            ),
            (Entity::Player(sp), Entity::Player(tp)) => DamageDirection::PlayerToPlayer(
                DamageEventData {
                    source: Entity::Player(sp),
                    target: Entity::Player(tp),
                    amount: self.amount,
                    ability: self.ability,
                    crit: self.crit,
                    dodged: self.dodged,
                },
            ),
            (Entity::Player(sp), Entity::Id(tid)) => DamageDirection::Dealt(
                DamageDealtEventData {
                    source: sp,
                    target: Entity::Id(tid),
                    amount: self.amount,
                    ability: self.ability,
                    crit: self.crit,
                    dodged: self.dodged,
                },
            ),
            (Entity::Id(sid), Entity::Player(tp)) => DamageDirection::Received(
                DamageReceivedEventData {
                    source: Entity::Id(sid),
                    target: tp,
                    amount: self.amount,
                    ability: self.ability,
                    crit: self.crit,
                    dodged: self.dodged,
                },
            ),
        }
    }
}

/// The team a status effect's target belongs to.
#[derive(Debug, PartialEq)]
pub enum TargetUnitTeam {
    Enemy,
    Friendly,
    Unknown(String),
}

/// Model of a target team.
pub enum TargetUnitTeamV {
    Enemy,
    Friendly,
    Unknown(Seq<char>),
}

impl View for TargetUnitTeam {
    type V = TargetUnitTeamV;

    open spec fn view(&self) -> TargetUnitTeamV {
        match self {
            TargetUnitTeam::Enemy => TargetUnitTeamV::Enemy,
            TargetUnitTeam::Friendly => TargetUnitTeamV::Friendly,
            TargetUnitTeam::Unknown(s) => TargetUnitTeamV::Unknown(s@),
        }
    }
}

impl Clone for TargetUnitTeam {
    fn clone(&self) -> (r: Self)
        ensures
            r@ == self@,
    {
        match self {
            TargetUnitTeam::Enemy => TargetUnitTeam::Enemy,
            TargetUnitTeam::Friendly => TargetUnitTeam::Friendly,
            TargetUnitTeam::Unknown(s) => TargetUnitTeam::Unknown(s.clone()),
        }
    }
}

/// A status-effect application.
#[derive(Debug, PartialEq)]
pub struct AddStatusEffectData {
    pub source: Entity,
    pub target: Entity,
    pub target_team: TargetUnitTeam,
    pub effectname: String,
    pub added: i64,
    pub newvalue: i64,
}

/// Model of a status-effect application.
pub struct AddStatusEffectDataV {
    pub source: EntityV,
    pub target: EntityV,
    pub target_team: TargetUnitTeamV,
    pub effectname: Seq<char>,
    pub added: int,
    pub newvalue: int,
}

impl View for AddStatusEffectData {
    type V = AddStatusEffectDataV;

    open spec fn view(&self) -> AddStatusEffectDataV {
        AddStatusEffectDataV {
            source: self.source@,
            target: self.target@,
            target_team: self.target_team@,
            effectname: self.effectname@,
            added: self.added as int,
            newvalue: self.newvalue as int,
        }
    }
}

impl Clone for AddStatusEffectData {
    fn clone(&self) -> (r: Self)
        ensures
            r@ == self@,
    {
        AddStatusEffectData {
            source: self.source.clone(),
            target: self.target.clone(),
            target_team: self.target_team.clone(),
            effectname: self.effectname.clone(),
            added: self.added,
            newvalue: self.newvalue,
        }
    }
}

/// A domain event. Every variant carries the raw line it came from.
#[derive(Debug, PartialEq)]
pub enum Event {
    StartDive(String),
    EndDive(String),
    StartCombat(String),
    EndCombat(String),
    DamageDealt(String, DamageDealtEventData),
    DamageReceived(String, DamageReceivedEventData),
    DamageOther(String, DamageEventData),
    AddStatusEffect(String, AddStatusEffectData),
    NextTurn(String),
    OrbPickup(String, PlayerData),
    SetSelf(String, String),
}

/// Model of a domain event.
pub enum EventV {
    StartDive(Seq<char>),
    EndDive(Seq<char>),
    StartCombat(Seq<char>),
    EndCombat(Seq<char>),
    DamageDealt(Seq<char>, DamageDealtEventDataV),
    DamageReceived(Seq<char>, DamageReceivedEventDataV),
    DamageOther(Seq<char>, DamageEventDataV),
    AddStatusEffect(Seq<char>, AddStatusEffectDataV),
    NextTurn(Seq<char>),
    OrbPickup(Seq<char>, PlayerDataV),
    SetSelf(Seq<char>, Seq<char>),
}

impl View for Event {
    type V = EventV;

    open spec fn view(&self) -> EventV {
        match self {
            Event::StartDive(l) => EventV::StartDive(l@),
            Event::EndDive(l) => EventV::EndDive(l@),
            Event::StartCombat(l) => EventV::StartCombat(l@),
            Event::EndCombat(l) => EventV::EndCombat(l@),
            Event::DamageDealt(l, d) => EventV::DamageDealt(l@, d@),
            Event::DamageReceived(l, d) => EventV::DamageReceived(l@, d@),
            Event::DamageOther(l, d) => EventV::DamageOther(l@, d@),
            Event::AddStatusEffect(l, d) => EventV::AddStatusEffect(l@, d@),
            Event::NextTurn(l) => EventV::NextTurn(l@),
            Event::OrbPickup(l, p) => EventV::OrbPickup(l@, p@),
            Event::SetSelf(l, n) => EventV::SetSelf(l@, n@),
        }
    }
}

impl Clone for Event {
    fn clone(&self) -> (r: Self)
        ensures
            r@ == self@,
    {
        match self {
            Event::StartDive(l) => Event::StartDive(l.clone()),
            Event::EndDive(l) => Event::EndDive(l.clone()),
            Event::StartCombat(l) => Event::StartCombat(l.clone()),
            Event::EndCombat(l) => Event::EndCombat(l.clone()),
            Event::DamageDealt(l, d) => Event::DamageDealt(l.clone(), d.clone()),
            Event::DamageReceived(l, d) => Event::DamageReceived(l.clone(), d.clone()),
            Event::DamageOther(l, d) => Event::DamageOther(l.clone(), d.clone()),
            Event::AddStatusEffect(l, d) => Event::AddStatusEffect(l.clone(), d.clone()),
            Event::NextTurn(l) => Event::NextTurn(l.clone()),
            Event::OrbPickup(l, p) => Event::OrbPickup(l.clone(), p.clone()),
            Event::SetSelf(l, n) => Event::SetSelf(l.clone(), n.clone()),
        }
    }
}

} // verus!
