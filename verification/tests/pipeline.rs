//! The whole pipeline: lines through the parser into the session state
//! machine, including growth across two bursts of input.

use inkbound_parser::events::{Entity, Event};
use inkbound_parser::parser::LogParser;
use inkbound_parser::reader::apply_lines;
use inkbound_parser::session::DataLog;

const L_DAMAGE_NORMAL: &str = "0T23:17:51 70 I [EventSystem] broadcasting EventOnUnitDamaged-WorldStateChangeDamageUnit-TargetUnitHandle:(EntityHandle:78)-SourceEntityHandle:(EntityHandle:22)-TargetUnitTeam:Enemy-IsInActiveCombat:True-DamageAmount:25-IsCriticalHit:False-WasDodged:False-ActionData:ActionData-Flurry_BaseDamage_Action (UPNE5APs)-AbilityData:AbilityData-Flurry_AbilityData (Flurry my7gMbFo)-StatusEffectData:(none)-LootableData:(none)";
const L_UNIT_CLASS: &str = "0T23:24:03 57 I Setting unit class for animation-UnitEntityHandle:(EntityHandle:22)-classType:C02";
const L_START_DIVE: &str = "0T23:24:45 80 I Party run start triggered - solo party: False";
const L_START_COMBAT: &str = "0T23:26:31 50 I [EventSystem] broadcasting EventOnCombatStarted-WorldStateChangeCombatStarted-CombatZoneHandle:(EntityHandle:68)-TriggeringInteractableHandle:(EntityHandle:69)";
const L_REGISTER_NAME: &str = "0T23:17:51 66 I TestPlayer (EntityHandle:22) is playing ability AbilityData-Flurry_AbilityData (Flurry my7gMbFo)";
const L_END_DIVE: &str = "0T23:59:59 11 I [EventSystem] broadcasting EventSetGameState-EndRun-WorldStateChange";
const L_ORB_PICKUP: &str = "0T00:51:46 18 I [EventSystem] broadcasting EventOnPickupActivated-WorldStateChangePickupActivated-PlayerUnitHandle:(EntityHandle:9)-PickupHandle:(EntityHandle:95)-PickupData:PickupData-ManaOrbPickup (PickupData_pickupName-taadPy97-ccebe8a3bf921d043ac03a49bce8019f LzTNf24V)";

/// The log grows in two bursts separated by a synchronization point; all of
/// burst one is applied before burst two, and replay is additive: the same
/// damage line twice doubles the total.
#[test]
fn test_logfile_append() {
    let mut parser = LogParser::new();
    let mut datalog = DataLog::new();

    let first_burst = [L_START_DIVE, L_START_COMBAT, L_REGISTER_NAME, L_UNIT_CLASS, L_DAMAGE_NORMAL];
    for line in first_burst.iter() {
        println!("read: {}", line);
        if let Some(event) = parser.parse_line(line) {
            datalog.handle_event(event);
        }
    }

    let dive = datalog.dives.get(0);
    assert!(dive.is_some());
    let dive = dive.unwrap();
    let testplayer = dive.player_stats.get("TestPlayer");
    assert!(testplayer.is_some());
    let testplayer = testplayer.unwrap();
    assert!(testplayer.total_damage_dealt == 25);

    let second_burst = [L_DAMAGE_NORMAL];
    for line in second_burst.iter() {
        println!("read: {}", line);
        if let Some(event) = parser.parse_line(line) {
            datalog.handle_event(event);
        }
    }

    let dive = datalog.dives.get(0);
    assert!(dive.is_some());
    let dive = dive.unwrap();
    let testplayer = dive.player_stats.get("TestPlayer");
    assert!(testplayer.is_some());
    let testplayer = testplayer.unwrap();
    assert!(testplayer.total_damage_dealt == 50);
}

/// Start a dive and combat, register a name and class for handle 22, then
/// deal 25 damage from it: the newest dive's record for that player shows a
/// total of 25, and an identical second line makes it 50.
#[test]
fn replay_is_additive() {
    let register = " I P (EntityHandle:22) is playing ability";
    let class_of = "Setting unit class-UnitEntityHandle:(EntityHandle:22)-classType:X";
    let damage = "EventOnUnitDamaged-TargetUnitHandle:(EntityHandle:78)-SourceEntityHandle:(EntityHandle:22)-DamageAmount:25-IsCriticalHit:False-WasDodged:False-ActionData:ActionData-Zap_Action";

    let mut parser = LogParser::new();
    let mut datalog = DataLog::new();
    let lines = [L_START_DIVE, L_START_COMBAT, register, class_of, damage];
    let events = parser.parse_lines(&lines);
    datalog.handle_events(events);

    let dive = datalog.dives.get(0).unwrap();
    let p = dive.player_stats.get("P").unwrap();
    assert_eq!(p.total_damage_dealt, 25);
    assert_eq!(p.player_data.id, 22);

    let events = parser.parse_lines(&[damage]);
    datalog.handle_events(events);
    let dive = datalog.dives.get(0).unwrap();
    let p = dive.player_stats.get("P").unwrap();
    assert_eq!(p.total_damage_dealt, 50);

    // the combat-scoped totals are aggregated independently from the same
    // stream
    let combat = dive.combats.get(0).unwrap();
    let pc = combat.player_stats.get("P").unwrap();
    assert_eq!(pc.total_damage_dealt, 50);
}

/// A dive-end signal clears both identity caches: a handle resolvable before
/// the signal is unresolved after it.
#[test]
fn dive_end_clears_identity_caches() {
    let mut parser = LogParser::new();
    assert!(parser.parse_line(L_REGISTER_NAME).is_none());
    assert!(parser.parse_line(L_UNIT_CLASS).is_none());

    // handle 22 is resolvable: damage from it is dealt damage
    let e = parser.parse_line(L_DAMAGE_NORMAL).unwrap();
    assert!(matches!(e, Event::DamageDealt(_, _)));

    let e = parser.parse_line(L_END_DIVE).unwrap();
    assert!(matches!(e, Event::EndDive(_)));

    // the same damage line is now unresolved on both sides
    let e = parser.parse_line(L_DAMAGE_NORMAL).unwrap();
    match e {
        Event::DamageOther(_, dmg) => {
            assert_eq!(dmg.source, Entity::Id(22));
            assert_eq!(dmg.target, Entity::Id(78));
        },
        other => panic!("unexpected event {:?}", other),
    }
}

/// An orb pickup referencing an unresolved handle emits nothing, creates no
/// statistics record, and does not panic.
#[test]
fn orb_pickup_unresolved_is_dropped() {
    let mut parser = LogParser::new();
    let mut datalog = DataLog::new();
    let events = parser.parse_lines(&[L_START_DIVE, L_START_COMBAT, L_ORB_PICKUP]);
    datalog.handle_events(events);

    let dive = datalog.dives.get(0).unwrap();
    assert!(dive.player_stats.player_stats.is_empty());
    let combat = dive.combats.get(0).unwrap();
    assert!(combat.player_stats.player_stats.is_empty());
}

/// An orb pickup by a resolved player lands on its record.
#[test]
fn orb_pickup_resolved_counts() {
    let register = " I Q (EntityHandle:9) is playing ability";
    let mut parser = LogParser::new();
    let mut datalog = DataLog::new();
    let events = parser.parse_lines(&[L_START_DIVE, register, L_ORB_PICKUP, L_ORB_PICKUP]);
    datalog.handle_events(events);

    let dive = datalog.dives.get(0).unwrap();
    let q = dive.player_stats.get("Q").unwrap();
    assert_eq!(q.orb_pickups, 2);
}

/// Ingesting in two batches leaves exactly the state of one batch over the
/// concatenated lines: nothing is reordered or coalesced.
#[test]
fn two_bursts_equal_one() {
    let all = [L_START_DIVE, L_START_COMBAT, L_REGISTER_NAME, L_UNIT_CLASS, L_DAMAGE_NORMAL, L_DAMAGE_NORMAL];

    let mut parser_a = LogParser::new();
    let mut datalog_a = DataLog::new();
    apply_lines(&mut parser_a, &mut datalog_a, &all[..4]);
    apply_lines(&mut parser_a, &mut datalog_a, &all[4..]);

    let mut parser_b = LogParser::new();
    let mut datalog_b = DataLog::new();
    apply_lines(&mut parser_b, &mut datalog_b, &all);

    assert_eq!(datalog_a, datalog_b);
}

/// Events before any dive starts are dropped silently.
#[test]
fn events_before_first_dive_are_dropped() {
    let mut parser = LogParser::new();
    let mut datalog = DataLog::new();
    let events = parser.parse_lines(&[L_REGISTER_NAME, L_UNIT_CLASS, L_DAMAGE_NORMAL]);
    datalog.handle_events(events);
    assert!(datalog.dives.is_empty());
}

/// The point-of-view name is learned from a hub-join line.
#[test]
fn pov_is_recorded() {
    let join = "0T00:44:47 45 I Joining hub - characterId: 00000000000, characterName: TestName, partyId: 392f1b98-4d51-4379-8624-72cce1bab72b";
    let mut parser = LogParser::new();
    let mut datalog = DataLog::new();
    let events = parser.parse_lines(&[join]);
    datalog.handle_events(events);
    assert_eq!(datalog.pov, Some("TestName".to_string()));
}
