use space_economy::economy::EconomyContract;
use space_economy::mission::{
    MissionContract, ProgressOutcome, Requirements, ResourceRequirement, Reward,
};

const ENERGY: u64 = 1;
const WATER: u64 = 3;
const PLAYER: u64 = 30;
const OTHER: u64 = 31;

fn simple_requirements() -> Requirements {
    Requirements { stars: 0, resources: Vec::new() }
}

#[test]
fn created_missions_get_monotonic_ids() {
    let mut tracker = MissionContract::new();
    let first = tracker.create_mission(
        "First".to_string(),
        "First mission".to_string(),
        Reward { resource: ENERGY, amount: 100 },
        simple_requirements(),
    );
    let second = tracker.create_mission(
        "Second".to_string(),
        "Second mission".to_string(),
        Reward { resource: ENERGY, amount: 5 },
        simple_requirements(),
    );
    assert_eq!(first, 1);
    assert_eq!(second, 2);
    assert_eq!(tracker.get_mission_counter(), 2);
    let mission = tracker.get_mission(first).unwrap();
    assert_eq!(mission.name, "First");
    assert_eq!(mission.reward.amount, 100);
    assert!(!mission.completed);
    assert!(tracker.get_mission(3).is_none());
    assert!(tracker.get_mission(0).is_none());
}

#[test]
fn completing_a_mission_twice_grants_the_reward_exactly_once() {
    let mut tracker = MissionContract::new();
    let mut ledger = EconomyContract::new();
    let id = tracker.create_mission(
        "Gift".to_string(),
        "A free reward".to_string(),
        Reward { resource: ENERGY, amount: 100 },
        simple_requirements(),
    );
    assert_eq!(tracker.complete_mission(&mut ledger, PLAYER, id, 0), ProgressOutcome::Completed);
    assert_eq!(ledger.get_balance(PLAYER, ENERGY), 100);
    assert_eq!(tracker.get_player_missions(PLAYER), vec![id]);
    // The retried call reports the latch and leaves the balance as the
    // first call's post-state.
    assert_eq!(
        tracker.complete_mission(&mut ledger, PLAYER, id, 0),
        ProgressOutcome::AlreadyCompleted
    );
    assert_eq!(ledger.get_balance(PLAYER, ENERGY), 100);
    assert_eq!(tracker.get_player_missions(PLAYER), vec![id]);
}

#[test]
fn completing_an_unknown_mission_is_not_found() {
    let mut tracker = MissionContract::new();
    let mut ledger = EconomyContract::new();
    assert_eq!(tracker.complete_mission(&mut ledger, PLAYER, 9, 0), ProgressOutcome::NotFound);
}

#[test]
fn star_requirement_gates_completion() {
    let mut tracker = MissionContract::new();
    let mut ledger = EconomyContract::new();
    let id = tracker.create_mission(
        "Explorer".to_string(),
        "Discover three stars".to_string(),
        Reward { resource: ENERGY, amount: 10 },
        Requirements { stars: 3, resources: Vec::new() },
    );
    assert_eq!(
        tracker.complete_mission(&mut ledger, PLAYER, id, 2),
        ProgressOutcome::RequirementsNotMet
    );
    assert_eq!(ledger.get_balance(PLAYER, ENERGY), 0);
    assert!(tracker.get_player_missions(PLAYER).is_empty());
    assert_eq!(tracker.complete_mission(&mut ledger, PLAYER, id, 3), ProgressOutcome::Completed);
    assert_eq!(ledger.get_balance(PLAYER, ENERGY), 10);
}

#[test]
fn resource_threshold_gates_completion() {
    let mut tracker = MissionContract::new();
    let mut ledger = EconomyContract::new();
    let mut resources = Vec::new();
    resources.push(ResourceRequirement { resource: WATER, amount: 1000 });
    let id = tracker.create_mission(
        "Collector".to_string(),
        "Hold a lake".to_string(),
        Reward { resource: ENERGY, amount: 10 },
        Requirements { stars: 0, resources },
    );
    ledger.credit(PLAYER, WATER, 999);
    assert_eq!(
        tracker.complete_mission(&mut ledger, PLAYER, id, 0),
        ProgressOutcome::RequirementsNotMet
    );
    assert_eq!(ledger.get_balance(PLAYER, ENERGY), 0);
    ledger.credit(PLAYER, WATER, 1);
    assert_eq!(tracker.complete_mission(&mut ledger, PLAYER, id, 0), ProgressOutcome::Completed);
    assert_eq!(ledger.get_balance(PLAYER, ENERGY), 10);
    // The requirement is a threshold, not a payment: the water stays.
    assert_eq!(ledger.get_balance(PLAYER, WATER), 1000);
}

#[test]
fn completion_records_are_per_player() {
    let mut tracker = MissionContract::new();
    let mut ledger = EconomyContract::new();
    let id = tracker.create_mission(
        "Gift".to_string(),
        "A free reward".to_string(),
        Reward { resource: ENERGY, amount: 1 },
        simple_requirements(),
    );
    assert_eq!(tracker.complete_mission(&mut ledger, PLAYER, id, 0), ProgressOutcome::Completed);
    assert!(tracker.get_player_missions(OTHER).is_empty());
    // The latch is per mission, not per player: the same mission cannot be
    // completed again by anyone.
    assert_eq!(
        tracker.complete_mission(&mut ledger, OTHER, id, 0),
        ProgressOutcome::AlreadyCompleted
    );
}

#[test]
fn achievements_complete_once_without_gating() {
    let mut tracker = MissionContract::new();
    let mut ledger = EconomyContract::new();
    let id = tracker.create_achievement(
        "Pioneer".to_string(),
        "Do something first".to_string(),
        Reward { resource: ENERGY, amount: 7 },
    );
    assert_eq!(id, 1);
    assert_eq!(tracker.get_achievement_counter(), 1);
    assert_eq!(tracker.complete_achievement(&mut ledger, PLAYER, id), ProgressOutcome::Completed);
    assert_eq!(ledger.get_balance(PLAYER, ENERGY), 7);
    assert_eq!(tracker.get_player_achievements(PLAYER), vec![id]);
    assert_eq!(
        tracker.complete_achievement(&mut ledger, PLAYER, id),
        ProgressOutcome::AlreadyCompleted
    );
    assert_eq!(ledger.get_balance(PLAYER, ENERGY), 7);
    assert_eq!(
        tracker.complete_achievement(&mut ledger, PLAYER, 2),
        ProgressOutcome::NotFound
    );
    let stored = tracker.get_achievement(id).unwrap();
    assert!(stored.completed);
    assert_eq!(stored.name, "Pioneer");
}
