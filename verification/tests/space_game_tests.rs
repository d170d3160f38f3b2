use space_economy::space_game::{SpaceGame, SpaceGameError};

const HOST: u64 = 999;
const PLAYER: u64 = 60;
const OTHER: u64 = 61;
const SCOUT: u64 = 1;
const CRYSTAL: u64 = 5;

#[test]
fn a_player_registers_once() {
    let mut game = SpaceGame::new(HOST);
    assert_eq!(game.initialize_player(PLAYER), Ok(()));
    assert_eq!(game.initialize_player(PLAYER), Err(SpaceGameError::AlreadyExists));
    assert_eq!(game.initialize_player(OTHER), Ok(()));
    let ships = game.get_player_ships(PLAYER).unwrap();
    assert!(ships.is_empty());
    assert!(game.get_player_resources(PLAYER).is_empty());
}

#[test]
fn unregistered_players_cannot_act() {
    let mut game = SpaceGame::new(HOST);
    assert_eq!(game.create_ship(PLAYER, SCOUT, SCOUT), Err(SpaceGameError::NotFound));
    assert_eq!(game.collect_resources(PLAYER, CRYSTAL, 5), Err(SpaceGameError::NotFound));
    assert!(game.get_player_ships(PLAYER).is_none());
    assert!(game.get_player_resources(PLAYER).is_empty());
}

#[test]
fn created_ships_join_the_fleet_in_order() {
    let mut game = SpaceGame::new(HOST);
    game.initialize_player(PLAYER);
    assert_eq!(game.create_ship(PLAYER, 7, SCOUT), Ok(()));
    assert_eq!(game.create_ship(PLAYER, 8, SCOUT), Ok(()));
    let ships = game.get_player_ships(PLAYER).unwrap();
    assert_eq!(ships.len(), 2);
    assert_eq!(ships[0].name, 7);
    assert_eq!(ships[1].name, 8);
    assert!(ships[0].active);
    assert!(ships[0].resources.is_empty());
}

#[test]
fn collected_resources_are_stamped_with_the_issuer() {
    let mut game = SpaceGame::new(HOST);
    game.initialize_player(PLAYER);
    assert_eq!(game.collect_resources(PLAYER, CRYSTAL, 12), Ok(()));
    assert_eq!(game.collect_resources(PLAYER, CRYSTAL, 3), Ok(()));
    let held = game.get_player_resources(PLAYER);
    assert_eq!(held.len(), 2);
    assert_eq!(held[0].name, CRYSTAL);
    assert_eq!(held[0].amount, 12);
    assert_eq!(held[0].issuer, HOST);
    assert_eq!(held[1].amount, 3);
    assert!(game.get_player_resources(OTHER).is_empty());
}
