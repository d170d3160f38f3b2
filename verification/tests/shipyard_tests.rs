use space_economy::shipyard::ShipyardContract;

const OWNER: u64 = 50;
const RIVAL: u64 = 51;
const NAME: u64 = 7;
const FREIGHTER: u64 = 2;

#[test]
fn new_ships_start_with_the_fixed_stats() {
    let mut yard = ShipyardContract::new();
    let id = yard.create_ship(OWNER, NAME, FREIGHTER);
    assert_eq!(id, 1);
    assert_eq!(yard.get_ship_counter(), 1);
    let ship = yard.get_ship(id).unwrap();
    assert_eq!(ship.owner, OWNER);
    assert_eq!(ship.name, NAME);
    assert_eq!(ship.ship_type, FREIGHTER);
    assert_eq!(ship.health, 100);
    assert_eq!(ship.max_health, 100);
    assert_eq!(ship.cargo_capacity, 1000);
    assert_eq!(ship.level, 1);
    assert_eq!(yard.get_player_ships(OWNER), vec![id]);
    assert!(yard.get_player_ships(RIVAL).is_empty());
    assert!(yard.get_ship(2).is_none());
}

#[test]
fn upgrading_raises_the_stats_and_heals() {
    let mut yard = ShipyardContract::new();
    let id = yard.create_ship(OWNER, NAME, FREIGHTER);
    assert!(yard.upgrade_ship(OWNER, id));
    let ship = yard.get_ship(id).unwrap();
    assert_eq!(ship.level, 2);
    assert_eq!(ship.max_health, 120);
    assert_eq!(ship.health, 120);
    assert_eq!(ship.cargo_capacity, 1200);
    assert!(yard.upgrade_ship(OWNER, id));
    let ship = yard.get_ship(id).unwrap();
    assert_eq!(ship.level, 3);
    assert_eq!(ship.max_health, 140);
    assert_eq!(ship.cargo_capacity, 1400);
}

#[test]
fn only_the_owner_may_upgrade() {
    let mut yard = ShipyardContract::new();
    let id = yard.create_ship(OWNER, NAME, FREIGHTER);
    assert!(!yard.upgrade_ship(RIVAL, id));
    assert!(!yard.upgrade_ship(OWNER, 99));
    let ship = yard.get_ship(id).unwrap();
    assert_eq!(ship.level, 1);
}

#[test]
fn repair_heals_only_a_damaged_ship_of_the_owner() {
    let mut yard = ShipyardContract::new();
    let id = yard.create_ship(OWNER, NAME, FREIGHTER);
    // Fresh ships are at full health, so there is nothing to repair.
    assert!(!yard.repair_ship(OWNER, id));
    // An upgrade heals to the new maximum, so damage cannot be simulated
    // through the public surface here; unknown ids and foreign callers are
    // still refused.
    assert!(!yard.repair_ship(RIVAL, id));
    assert!(!yard.repair_ship(OWNER, 2));
}

#[test]
fn each_player_keeps_their_own_fleet_list() {
    let mut yard = ShipyardContract::new();
    let first = yard.create_ship(OWNER, NAME, FREIGHTER);
    let second = yard.create_ship(RIVAL, NAME, FREIGHTER);
    let third = yard.create_ship(OWNER, 8, FREIGHTER);
    assert_eq!(first, 1);
    assert_eq!(second, 2);
    assert_eq!(third, 3);
    assert_eq!(yard.get_player_ships(OWNER), vec![first, third]);
    assert_eq!(yard.get_player_ships(RIVAL), vec![second]);
}
