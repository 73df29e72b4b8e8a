//! Classification of single log lines.

use inkbound_parser::classify::{InternalEvent, ParseEvent};
use inkbound_parser::events::{Entity, Event, TargetUnitTeam};
use inkbound_parser::parser::LogParser;

const L_DAMAGE_NORMAL: &str = "0T23:17:51 70 I [EventSystem] broadcasting EventOnUnitDamaged-WorldStateChangeDamageUnit-TargetUnitHandle:(EntityHandle:78)-SourceEntityHandle:(EntityHandle:22)-TargetUnitTeam:Enemy-IsInActiveCombat:True-DamageAmount:25-IsCriticalHit:False-WasDodged:False-ActionData:ActionData-Flurry_BaseDamage_Action (UPNE5APs)-AbilityData:AbilityData-Flurry_AbilityData (Flurry my7gMbFo)-StatusEffectData:(none)-LootableData:(none)";
const L_DAMAGE_CRIT: &str = "0T23:17:51 70 I [EventSystem] broadcasting EventOnUnitDamaged-WorldStateChangeDamageUnit-TargetUnitHandle:(EntityHandle:78)-SourceEntityHandle:(EntityHandle:22)-TargetUnitTeam:Enemy-IsInActiveCombat:True-DamageAmount:25-IsCriticalHit:True-WasDodged:False-ActionData:ActionData-Flurry_BaseDamage_Action (UPNE5APs)-AbilityData:AbilityData-Flurry_AbilityData (Flurry my7gMbFo)-StatusEffectData:(none)-LootableData:(none)";
const L_DAMAGE_DODGED: &str = "0T23:17:51 70 I [EventSystem] broadcasting EventOnUnitDamaged-WorldStateChangeDamageUnit-TargetUnitHandle:(EntityHandle:78)-SourceEntityHandle:(EntityHandle:22)-TargetUnitTeam:Enemy-IsInActiveCombat:True-DamageAmount:25-IsCriticalHit:False-WasDodged:True-ActionData:ActionData-Flurry_BaseDamage_Action (UPNE5APs)-AbilityData:AbilityData-Flurry_AbilityData (Flurry my7gMbFo)-StatusEffectData:(none)-LootableData:(none)";
const L_UNIT_CLASS: &str = "0T23:24:03 57 I Setting unit class for animation-UnitEntityHandle:(EntityHandle:22)-classType:C02";
const L_START_DIVE: &str = "0T23:24:45 80 I Party run start triggered - solo party: False";
const L_START_COMBAT: &str = "0T23:26:31 50 I [EventSystem] broadcasting EventOnCombatStarted-WorldStateChangeCombatStarted-CombatZoneHandle:(EntityHandle:68)-TriggeringInteractableHandle:(EntityHandle:69)";
const L_END_COMBAT: &str = "0T23:47:19 32 I [EventSystem] broadcasting EventOnCombatEndSequenceStarted-WorldStateChangeCombatFinishedStartSequence";
const L_NEXT_TURN: &str = "0T23:45:57 21 I Evaluating quest progress for (EntityHandle:16) with 101 active quests. Record variable: QuestObjective_TurnCount";
const L_ORB_PICKUP: &str = "0T00:51:46 18 I [EventSystem] broadcasting EventOnPickupActivated-WorldStateChangePickupActivated-PlayerUnitHandle:(EntityHandle:9)-PickupHandle:(EntityHandle:95)-PickupData:PickupData-ManaOrbPickup (PickupData_pickupName-taadPy97-ccebe8a3bf921d043ac03a49bce8019f LzTNf24V)";
const L_SET_SELF: &str = "0T00:44:47 45 I Joining hub - characterId: 00000000000, characterName: TestName, partyId: 392f1b98-4d51-4379-8624-72cce1bab72b";
const L_ADD_STATUS: &str = "0T03:43:12 98 I [EventSystem] broadcasting EventOnUnitStatusEffectStacksAdded-WorldStateChangeUnitAddStatusEffectStacks-TargetUnitEntityHandle:(EntityHandle:1711)-CasterUnitEntityHandle:(EntityHandle:21)-TargetUnitTeam:Enemy-IsInActiveCombat:True-StatusEffectInstanceHandle:(Handle:3372)-StatusEffectData:StatusEffectData-Burn_StatusEffect (HelperData_titleKey-vdrSrrVG-f73d28c6d6a09c44e9b41ad2b3704826 sXmQNYjg)-StacksAdded:5-NewStacksValue:59";

#[test]
fn parse_damage_line() {
    let damage_lines = [L_DAMAGE_NORMAL, L_DAMAGE_CRIT, L_DAMAGE_DODGED];

    let parser = LogParser::new();
    let damage_lines: Vec<ParseEvent> = damage_lines.iter().map(|elem| parser.do_parse(elem)).collect();
    let mut line = damage_lines.iter();

    match line.next() {
        Some(ParseEvent::Internal(InternalEvent::Damage(_, dmg))) => {
            assert_eq!(dmg.source, Entity::Id(22));
            assert_eq!(dmg.target, Entity::Id(78));
            assert_eq!(dmg.ability, "Flurry_BaseDamage".to_string());
            assert_eq!(dmg.amount, 25);
            assert!(!dmg.crit);
            assert!(!dmg.dodged);
        },
        Some(_) => panic!(),
        None => panic!("Update the test case"),
    }
    match line.next() {
        Some(ParseEvent::Internal(InternalEvent::Damage(_, dmg))) => {
            assert_eq!(dmg.source, Entity::Id(22));
            assert_eq!(dmg.target, Entity::Id(78));
            assert_eq!(dmg.ability, "Flurry_BaseDamage".to_string());
            assert_eq!(dmg.amount, 25);
            assert!(dmg.crit);
            assert!(!dmg.dodged);
        },
        Some(_) => panic!(),
        None => panic!("Update the test case"),
    }
    match line.next() {
        Some(ParseEvent::Internal(InternalEvent::Damage(_, dmg))) => {
            assert_eq!(dmg.source, Entity::Id(22));
            assert_eq!(dmg.target, Entity::Id(78));
            assert_eq!(dmg.ability, "Flurry_BaseDamage".to_string());
            assert_eq!(dmg.amount, 25);
            assert!(!dmg.crit);
            assert!(dmg.dodged);
        },
        Some(_) => panic!(),
        None => panic!("Update the test case"),
    }

    if line.next().is_some() {
        panic!("Update the test case");
    }
}

#[test]
fn parse_unit_class() {
    let parser = LogParser::new();
    let line = parser.do_parse(L_UNIT_CLASS);

    match &line {
        ParseEvent::Internal(InternalEvent::UnitClass(_, id, class)) => {
            assert_eq!(*id, 22);
            assert_eq!(*class, "C02".to_string());
        },
        _ => {
            println!("received {:?}", line);
            panic!();
        },
    }
}

#[test]
fn parse_start_dive() {
    let parser = LogParser::new();
    let line = parser.do_parse(L_START_DIVE);

    match &line {
        ParseEvent::Parsed(Event::StartDive(_)) => (),
        _ => {
            println!("received {:?}", line);
            panic!();
        },
    }
}

#[test]
fn parse_start_combat() {
    let parser = LogParser::new();
    let line = parser.do_parse(L_START_COMBAT);

    match &line {
        ParseEvent::Parsed(Event::StartCombat(_)) => (),
        _ => {
            println!("received {:?}", line);
            panic!();
        },
    }
}

#[test]
fn parse_end_combat() {
    let parser = LogParser::new();
    let line = parser.do_parse(L_END_COMBAT);

    match &line {
        ParseEvent::Parsed(Event::EndCombat(_)) => (),
        _ => {
            println!("received {:?}", line);
            panic!();
        },
    }
}

#[test]
fn parse_next_turn() {
    let parser = LogParser::new();
    let line = parser.do_parse(L_NEXT_TURN);

    match &line {
        ParseEvent::Parsed(Event::NextTurn(_)) => (),
        _ => {
            println!("received {:?}", line);
            panic!();
        },
    }
}

#[test]
fn parse_orb_pickup() {
    let parser = LogParser::new();
    let line = parser.do_parse(L_ORB_PICKUP);

    match line {
        ParseEvent::Internal(InternalEvent::OrbPickup(_, id)) => assert_eq!(id, Entity::Id(9)),
        _ => {
            println!("received {:?}", line);
            panic!();
        },
    }
}

#[test]
fn parse_set_self() {
    let parser = LogParser::new();
    let line = parser.do_parse(L_SET_SELF);

    match line {
        ParseEvent::Parsed(Event::SetSelf(_, name)) => assert_eq!(name, "TestName".to_string()),
        _ => {
            println!("received {:?}", line);
            panic!();
        },
    }
}

#[test]
fn parse_add_status_effect() {
    let parser = LogParser::new();
    let line = parser.do_parse(L_ADD_STATUS);

    match line {
        ParseEvent::Internal(InternalEvent::AddStatusEffect(_, data)) => {
            assert_eq!(data.source, Entity::Id(21));
            assert_eq!(data.target, Entity::Id(1711));
            assert_eq!(data.target_team, TargetUnitTeam::Enemy);
            assert_eq!(data.effectname, "Burn".to_string());
            assert_eq!(data.added, 5);
            assert_eq!(data.newvalue, 59);
        },
        _ => {
            println!("received {:?}", line);
            panic!();
        },
    }
}

#[test]
fn parse_end_dive() {
    let parser = LogParser::new();
    let line = parser.do_parse(
        "0T23:59:59 11 I [EventSystem] broadcasting EventSetGameState-EndRun-WorldStateChange",
    );

    match &line {
        ParseEvent::Internal(InternalEvent::EndDive(_)) => (),
        _ => {
            println!("received {:?}", line);
            panic!();
        },
    }
}

#[test]
fn unrecognized_line_is_not_an_error() {
    let parser = LogParser::new();
    let line = parser.do_parse("0T00:00:00 00 I nothing interesting happened here");
    assert!(matches!(line, ParseEvent::Internal(InternalEvent::Unknown(_))));
}

#[test]
fn classification_is_deterministic() {
    let parser = LogParser::new();
    let a = parser.do_parse(L_DAMAGE_NORMAL);
    let b = parser.do_parse(L_DAMAGE_NORMAL);
    assert_eq!(a, b);
}
