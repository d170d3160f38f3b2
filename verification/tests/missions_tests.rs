use space_economy::mission::ProgressOutcome;
use space_economy::missions::{
    MissionSystem, ResourceAmount, ENERGY, FIRST_STEPS, IRON, RESOURCE_COLLECTOR, WATER,
};

const PLAYER: u64 = 40;
const STAR_A: u64 = 100;
const STAR_B: u64 = 101;

#[test]
fn initialization_creates_the_two_built_in_missions() {
    let mut system = MissionSystem::new();
    system.initialize_missions();
    assert_eq!(system.get_all_missions(), vec![FIRST_STEPS, RESOURCE_COLLECTOR]);
    let first = system.get_mission_details(FIRST_STEPS).unwrap();
    assert_eq!(first.name, "First Steps");
    assert_eq!(first.description, "Discover your first star system");
    assert_eq!(first.reward_resource, ENERGY);
    assert_eq!(first.reward_amount, 100);
    assert!(first.required_stars.is_empty());
    assert!(first.required_resources.is_empty());
    assert!(!first.completed);
    let collector = system.get_mission_details(RESOURCE_COLLECTOR).unwrap();
    assert_eq!(collector.name, "Resource Collector");
    assert_eq!(collector.reward_resource, IRON);
    assert_eq!(collector.reward_amount, 500);
    assert_eq!(collector.required_resources.len(), 1);
    assert_eq!(collector.required_resources[0], ResourceAmount { resource: WATER, amount: 1000 });
    assert!(!collector.completed);
    assert!(system.get_mission_details(99).is_none());
}

#[test]
fn an_unconditional_mission_completes_with_an_empty_snapshot() {
    let mut system = MissionSystem::new();
    system.initialize_missions();
    let outcome = system.check_mission_completion(PLAYER, FIRST_STEPS, &Vec::new(), &Vec::new());
    assert_eq!(outcome, ProgressOutcome::Completed);
    assert_eq!(system.get_player_missions(PLAYER), vec![FIRST_STEPS]);
    assert!(system.get_mission_details(FIRST_STEPS).unwrap().completed);
}

#[test]
fn completion_latches_and_reports_already_completed() {
    let mut system = MissionSystem::new();
    system.initialize_missions();
    system.check_mission_completion(PLAYER, FIRST_STEPS, &Vec::new(), &Vec::new());
    let retry = system.check_mission_completion(PLAYER, FIRST_STEPS, &Vec::new(), &Vec::new());
    assert_eq!(retry, ProgressOutcome::AlreadyCompleted);
    assert_eq!(system.get_player_missions(PLAYER), vec![FIRST_STEPS]);
}

#[test]
fn an_unknown_mission_id_is_not_found() {
    let mut system = MissionSystem::new();
    system.initialize_missions();
    let outcome = system.check_mission_completion(PLAYER, 99, &Vec::new(), &Vec::new());
    assert_eq!(outcome, ProgressOutcome::NotFound);
}

#[test]
fn the_collector_mission_needs_a_thousand_water() {
    let mut system = MissionSystem::new();
    system.initialize_missions();
    let poor = vec![ResourceAmount { resource: WATER, amount: 999 }];
    assert_eq!(
        system.check_mission_completion(PLAYER, RESOURCE_COLLECTOR, &poor, &Vec::new()),
        ProgressOutcome::RequirementsNotMet
    );
    assert!(system.get_player_missions(PLAYER).is_empty());
    let rich = vec![
        ResourceAmount { resource: ENERGY, amount: 3 },
        ResourceAmount { resource: WATER, amount: 1000 },
    ];
    assert_eq!(
        system.check_mission_completion(PLAYER, RESOURCE_COLLECTOR, &rich, &Vec::new()),
        ProgressOutcome::Completed
    );
    assert_eq!(system.get_player_missions(PLAYER), vec![RESOURCE_COLLECTOR]);
}

#[test]
fn star_requirements_check_the_discovery_snapshot() {
    let mut system = MissionSystem::new();
    system.create_mission(
        7,
        "Surveyor".to_string(),
        "Visit two named stars".to_string(),
        ENERGY,
        25,
        vec![STAR_A, STAR_B],
        Vec::new(),
    );
    let one_star = vec![STAR_A];
    assert_eq!(
        system.check_mission_completion(PLAYER, 7, &Vec::new(), &one_star),
        ProgressOutcome::RequirementsNotMet
    );
    let both = vec![STAR_B, STAR_A];
    assert_eq!(
        system.check_mission_completion(PLAYER, 7, &Vec::new(), &both),
        ProgressOutcome::Completed
    );
}

#[test]
fn recreating_a_mission_overwrites_it_and_logs_the_id_again() {
    let mut system = MissionSystem::new();
    system.initialize_missions();
    system.check_mission_completion(PLAYER, FIRST_STEPS, &Vec::new(), &Vec::new());
    assert!(system.get_mission_details(FIRST_STEPS).unwrap().completed);
    system.create_mission(
        FIRST_STEPS,
        "First Steps".to_string(),
        "Reissued".to_string(),
        ENERGY,
        100,
        Vec::new(),
        Vec::new(),
    );
    // Overwriting resets the latch and appends to the creation log.
    assert!(!system.get_mission_details(FIRST_STEPS).unwrap().completed);
    assert_eq!(
        system.get_all_missions(),
        vec![FIRST_STEPS, RESOURCE_COLLECTOR, FIRST_STEPS]
    );
}
