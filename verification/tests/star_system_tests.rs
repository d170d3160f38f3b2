use space_economy::star_system::{
    StarError, StarSystem, ALPHA_CENTAURI, BARNARDS_STAR, PROXIMA_CENTAURI,
};

const PLAYER: u64 = 70;
const HELIUM: u64 = 9;

#[test]
fn initialization_catalogues_the_three_stars() {
    let mut catalogue = StarSystem::new();
    catalogue.initialize_system();
    assert_eq!(
        catalogue.get_all_stars(),
        vec![ALPHA_CENTAURI, PROXIMA_CENTAURI, BARNARDS_STAR]
    );
    let alpha = catalogue.get_star_info(ALPHA_CENTAURI).unwrap();
    assert_eq!(alpha.distance, 0);
    assert!(!alpha.discovered);
    assert!(alpha.resources.is_empty());
    let proxima = catalogue.get_star_info(PROXIMA_CENTAURI).unwrap();
    assert_eq!(proxima.distance, 4);
    let barnards = catalogue.get_star_info(BARNARDS_STAR).unwrap();
    assert_eq!(barnards.distance, 6);
    assert!(catalogue.get_star_info(42).is_none());
}

#[test]
fn initialization_is_idempotent() {
    let mut catalogue = StarSystem::new();
    catalogue.initialize_system();
    catalogue.initialize_system();
    assert_eq!(catalogue.get_all_stars().len(), 3);
}

#[test]
fn a_star_is_discovered_once() {
    let mut catalogue = StarSystem::new();
    catalogue.initialize_system();
    assert_eq!(catalogue.discover_star(PLAYER, PROXIMA_CENTAURI), Ok(()));
    assert!(catalogue.get_star_info(PROXIMA_CENTAURI).unwrap().discovered);
    assert_eq!(
        catalogue.discover_star(PLAYER, PROXIMA_CENTAURI),
        Err(StarError::AlreadyDiscovered)
    );
    assert_eq!(catalogue.discover_star(PLAYER, 42), Err(StarError::NotFound));
    assert!(!catalogue.get_star_info(ALPHA_CENTAURI).unwrap().discovered);
}

#[test]
fn deposits_are_recorded_per_star_and_resource() {
    let mut catalogue = StarSystem::new();
    catalogue.initialize_system();
    assert_eq!(catalogue.get_resource_amount(ALPHA_CENTAURI, HELIUM), 0);
    assert_eq!(catalogue.add_resource(ALPHA_CENTAURI, HELIUM, 2500), Ok(()));
    assert_eq!(catalogue.get_resource_amount(ALPHA_CENTAURI, HELIUM), 2500);
    assert_eq!(catalogue.get_resource_amount(PROXIMA_CENTAURI, HELIUM), 0);
    let alpha = catalogue.get_star_info(ALPHA_CENTAURI).unwrap();
    assert_eq!(alpha.resources, vec![HELIUM]);
    assert_eq!(catalogue.add_resource(42, HELIUM, 1), Err(StarError::NotFound));
}
