//! Unit behavior: aspects, statistics aggregation, damage direction, text
//! rendering, and the reader's decision functions.

use inkbound_parser::aspects::{Aspect, AspectAbbv};
use inkbound_parser::events::{
    AddStatusEffectData, DamageDealtEventData, DamageDirection, DamageEventData,
    DamageReceivedEventData, Entity, PlayerData, TargetUnitTeam,
};
use inkbound_parser::reader::{
    check_exit, reading_status, watcher_decision, LogReaderCommand, LogReaderStatus, PollResult,
    WatcherAction,
};
use inkbound_parser::session::inverted_number_label;
use inkbound_parser::stats::{sat_add, PlayerStatList, PlayerStats};
use inkbound_parser::text::{i64_to_string, u64_to_string};

fn player(name: &str, id: i64) -> PlayerData {
    PlayerData { name: name.to_string(), class: Aspect::Weaver, id }
}

fn dealt(name: &str, ability: &str, amount: i64, crit: bool) -> DamageDealtEventData {
    DamageDealtEventData {
        source: player(name, 7),
        target: Entity::Id(99),
        amount,
        ability: ability.to_string(),
        crit,
        dodged: false,
    }
}

#[test]
fn aspect_from_id_known_codes() {
    assert_eq!(Aspect::from_id("C01"), Aspect::MagmaMiner);
    assert_eq!(Aspect::from_id("C02"), Aspect::Mosscloak);
    assert_eq!(Aspect::from_id("C03"), Aspect::Clairvoyant);
    assert_eq!(Aspect::from_id("C04"), Aspect::Weaver);
    assert_eq!(Aspect::from_id("C05"), Aspect::Obelisk);
    assert_eq!(Aspect::from_id("C06"), Aspect::Unknown("C06".to_string()));
    assert_eq!(Aspect::from_id("C07"), Aspect::StarCaptain);
    assert_eq!(Aspect::from_id("C08"), Aspect::Chainbreaker);
    assert_eq!(Aspect::from_id("C09"), Aspect::Godkeeper);
    assert_eq!(Aspect::from_id("Z77"), Aspect::Unknown("Z77".to_string()));
}

#[test]
fn aspect_display_names() {
    assert_eq!(Aspect::MagmaMiner.display_name(), "Magma Miner".to_string());
    assert_eq!(Aspect::Clairvoyant.display_name(), "Clairvoyent".to_string());
    assert_eq!(Aspect::Unknown("C42".to_string()).display_name(), "C42".to_string());
}

#[test]
fn aspect_abbreviations() {
    assert_eq!(Aspect::MagmaMiner.abbv(), "MGM".to_string());
    assert_eq!(Aspect::Godkeeper.abbv(), "GKR".to_string());
    assert_eq!(Aspect::Unknown("C42".to_string()).abbv(), "UNK".to_string());
}

#[test]
fn direction_of_each_resolution() {
    let base = |source: Entity, target: Entity| DamageEventData {
        source,
        target,
        amount: 10,
        ability: "Zap".to_string(),
        crit: false,
        dodged: false,
    };

    let d = base(Entity::Player(player("A", 1)), Entity::Id(2)).direction();
    assert!(matches!(d, DamageDirection::Dealt(_)));

    let d = base(Entity::Id(1), Entity::Player(player("B", 2))).direction();
    assert!(matches!(d, DamageDirection::Received(_)));

    let d = base(Entity::Id(1), Entity::Id(2)).direction();
    assert!(matches!(d, DamageDirection::EnemyToEnemy(_)));

    let d = base(Entity::Player(player("A", 1)), Entity::Player(player("B", 2))).direction();
    assert!(matches!(d, DamageDirection::PlayerToPlayer(_)));
}

#[test]
fn dealt_damage_updates_skill_and_crit_totals() {
    let mut stats = PlayerStats::new(player("A", 1));
    stats.apply_dealt_damage(dealt("A", "Zap", 25, false));
    stats.apply_dealt_damage(dealt("A", "Zap", 10, true));
    stats.apply_dealt_damage(dealt("A", "Slash", 5, false));

    assert_eq!(stats.total_damage_dealt, 40);
    assert_eq!(stats.skill_totals.get_count("Zap"), Some(35));
    assert_eq!(stats.skill_totals.get_count("Slash"), Some(5));
    assert_eq!(stats.crit_totals.get_count("Zap"), Some(10));
    assert_eq!(stats.crit_totals.get_count("Slash"), None);
    assert_eq!(stats.total_damage_received, 0);
}

#[test]
fn received_damage_has_no_per_ability_breakdown() {
    let mut stats = PlayerStats::new(player("A", 1));
    stats.apply_received_damage(DamageReceivedEventData {
        source: Entity::Id(5),
        target: player("A", 1),
        amount: 17,
        ability: "Bite".to_string(),
        crit: false,
        dodged: false,
    });
    assert_eq!(stats.total_damage_received, 17);
    assert_eq!(stats.skill_totals.get_count("Bite"), None);
}

#[test]
fn status_effect_counts_stacks_added_not_total() {
    let mut list = PlayerStatList::new();
    let data = AddStatusEffectData {
        source: Entity::Id(3),
        target: Entity::Player(player("A", 1)),
        target_team: TargetUnitTeam::Enemy,
        effectname: "Burn".to_string(),
        added: 5,
        newvalue: 59,
    };
    list.apply_status_effects(data.clone());
    list.apply_status_effects(data);

    let a = list.get("A").unwrap();
    assert_eq!(a.status_applied.get_count("Burn"), Some(10));
}

#[test]
fn status_effect_on_unresolved_target_changes_nothing() {
    let mut list = PlayerStatList::new();
    list.apply_status_effects(AddStatusEffectData {
        source: Entity::Id(3),
        target: Entity::Id(4),
        target_team: TargetUnitTeam::Unknown("Void".to_string()),
        effectname: "Burn".to_string(),
        added: 5,
        newvalue: 5,
    });
    assert!(list.player_stats.is_empty());
}

#[test]
fn orb_pickup_creates_record_and_counts() {
    let mut list = PlayerStatList::new();
    list.apply_orb_pickup(player("A", 1));
    assert_eq!(list.get("A").unwrap().orb_pickups, 1);
    list.apply_orb_pickup(player("A", 1));
    assert_eq!(list.get("A").unwrap().orb_pickups, 2);
}

#[test]
fn accumulation_saturates_instead_of_overflowing() {
    assert_eq!(sat_add(2, 3), 5);
    assert_eq!(sat_add(i64::MAX - 1, 5), i64::MAX);
    assert_eq!(sat_add(i64::MIN + 1, -5), i64::MIN);

    let mut stats = PlayerStats::new(player("A", 1));
    stats.apply_dealt_damage(dealt("A", "Zap", i64::MAX, false));
    stats.apply_dealt_damage(dealt("A", "Zap", i64::MAX, false));
    assert_eq!(stats.total_damage_dealt, i64::MAX);
    assert_eq!(stats.skill_totals.get_count("Zap"), Some(i64::MAX));
}

#[test]
fn decimal_rendering() {
    assert_eq!(u64_to_string(0), "0".to_string());
    assert_eq!(u64_to_string(907), "907".to_string());
    assert_eq!(i64_to_string(-45), "-45".to_string());
    assert_eq!(i64_to_string(i64::MIN), "-9223372036854775808".to_string());
}

#[test]
fn inverted_labels() {
    assert_eq!(inverted_number_label(0, 3), "3 (current)".to_string());
    assert_eq!(inverted_number_label(2, 3), "1".to_string());
    assert_eq!(inverted_number_label(0, 0), "0 (current)".to_string());
}

#[test]
fn exit_decision() {
    assert!(!check_exit(PollResult::Received(LogReaderCommand::Update)));
    assert!(!check_exit(PollResult::Empty));
    assert!(check_exit(PollResult::Received(LogReaderCommand::Stop)));
    assert!(check_exit(PollResult::Disconnected));
}

#[test]
fn status_transitions_and_names() {
    assert_eq!(reading_status(LogReaderStatus::Initializing), LogReaderStatus::Initializing);
    assert_eq!(reading_status(LogReaderStatus::Idle), LogReaderStatus::Reading);
    assert_eq!(reading_status(LogReaderStatus::Errored), LogReaderStatus::Reading);
    assert_eq!(LogReaderStatus::Idle.display_name(), "Idle".to_string());
    assert_eq!(LogReaderStatus::Errored.display_name(), "Errored".to_string());

    assert_eq!(watcher_decision(true), WatcherAction::SendUpdate);
    assert_eq!(watcher_decision(false), WatcherAction::MarkErrored);
}
