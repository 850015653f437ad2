use astrobiology::game_manager::{Scene as _, SceneName};
use astrobiology::planet_generator::Planet;
use astrobiology::planetary_environment_generator::PlanetaryEnvironment;
use astrobiology::planetary_system_generator::PlanetarySystem;
use astrobiology::state_machine::{Game, Scene, SceneId};

fn stars_of(scene: &SceneId) -> Vec<String> {
    (0..scene.get_unit_count()).map(|index| scene.get_unit_info(index)).collect()
}

#[test]
fn game_descends_into_the_first_star_and_comes_back_to_a_new_galaxy() {
    let game = Game::new(100);
    assert_eq!(game.scene_id.get_scene_name(), SceneName::Galaxy);
    assert_eq!(game.scene_id.get_unit_count(), 100);
    assert_eq!(game.scene_id.get_galaxy_size(), 100);
    let before = stars_of(&game.scene_id);
    let first = match &game.scene_id {
        SceneId::Galaxy(scene) => scene.get_state().get_stars()[0],
        _ => panic!("a game starts in the galaxy"),
    };

    let inside = game.scene_id.step_in(0);
    assert_eq!(inside.get_scene_name(), SceneName::PlanetarySystem);
    assert_eq!(inside.get_star_seed(), first);
    assert_eq!(inside.get_star_seed().get_info(), before[0]);
    assert_eq!(inside.get_galaxy_size(), 100);
    assert_eq!(inside.get_system_info(), PlanetarySystem::new(&first).get_system_info());

    let outside = inside.step_out();
    assert_eq!(outside.get_scene_name(), SceneName::Galaxy);
    assert_eq!(outside.get_unit_count(), 100);
    assert_eq!(outside.get_galaxy_size(), 100);
    assert_eq!(outside.get_star_seed(), first);
    assert_ne!(stars_of(&outside), before);
}

#[test]
fn unit_info_out_of_range_says_invalid_and_changes_nothing() {
    let galaxy = Game::new(10).scene_id;
    let summary = galaxy.get_system_info();
    assert_eq!(galaxy.get_unit_info(10), "Invalid coordinates.");
    assert_eq!(galaxy.get_unit_info(11), "Invalid coordinates.");
    assert_eq!(galaxy.get_unit_info(usize::MAX), "Invalid coordinates.");
    assert_ne!(galaxy.get_unit_info(9), "Invalid coordinates.");
    assert_eq!(galaxy.get_system_info(), summary);
    assert_eq!(galaxy.get_unit_count(), 10);

    let system = galaxy.step_in(4);
    let summary = system.get_system_info();
    let count = system.get_unit_count();
    assert_eq!(system.get_unit_info(count), "Invalid coordinates.");
    assert_eq!(system.get_unit_info(usize::MAX), "Invalid coordinates.");
    assert_ne!(system.get_unit_info(count - 1), "Invalid coordinates.");
    assert_eq!(system.get_system_info(), summary);
    assert_eq!(system.get_unit_count(), count);

    let environment = system.step_in(0);
    let summary = environment.get_system_info();
    let count = environment.get_unit_count();
    assert_eq!(environment.get_unit_info(count), "Invalid coordinates.");
    assert_eq!(environment.get_unit_info(usize::MAX), "Invalid coordinates.");
    assert_eq!(environment.get_system_info(), summary);
    assert_eq!(environment.get_unit_count(), count);
}

#[test]
fn step_in_takes_the_unit_at_the_index() {
    let galaxy = Game::new(20).scene_id;
    let chosen = match &galaxy {
        SceneId::Galaxy(scene) => scene.get_state().get_stars()[7],
        _ => panic!("a game starts in the galaxy"),
    };
    let kept = galaxy.get_planet_seed();
    let system = galaxy.step_in(7);
    assert_eq!(system.get_star_seed(), chosen);
    assert_eq!(system.get_planet_seed(), kept);
    let count = system.get_unit_count();
    assert_eq!(count, PlanetarySystem::new(&chosen).get_planets().len());
    for index in 0..count {
        assert_eq!(system.get_unit_info(index), Planet::new(&chosen, index as u8 + 1).get_info());
    }

    let planet = Planet::new(&chosen, 2);
    let environment = system.step_in(1);
    assert_eq!(environment.get_scene_name(), SceneName::PlanetaryEnvironment);
    assert_eq!(environment.get_planet_seed(), planet);
    assert_eq!(environment.get_star_seed(), chosen);
    assert_eq!(environment.get_galaxy_size(), 20);
    assert_eq!(environment.get_system_info(), PlanetaryEnvironment::new(&planet).get_system_info());
}

#[test]
fn step_in_out_of_range_takes_the_first_unit() {
    let galaxy = Game::new(5).scene_id;
    let first = match &galaxy {
        SceneId::Galaxy(scene) => scene.get_state().get_stars()[0],
        _ => panic!("a game starts in the galaxy"),
    };
    let system = galaxy.step_in(5);
    assert_eq!(system.get_star_seed(), first);
    let environment = system.step_in(usize::MAX);
    assert_eq!(environment.get_planet_seed(), Planet::new(&first, 1));
}

#[test]
fn step_in_from_an_empty_galaxy_keeps_the_star_in_memory() {
    let galaxy = Game::new(0).scene_id;
    assert_eq!(galaxy.get_unit_count(), 0);
    assert_eq!(galaxy.get_system_info(), "");
    let star = galaxy.get_star_seed();
    assert_eq!(galaxy.get_planet_seed(), Planet::new(&star, 1));
    let system = galaxy.step_in(0);
    assert_eq!(system.get_scene_name(), SceneName::PlanetarySystem);
    assert_eq!(system.get_star_seed(), star);
    assert_eq!(system.get_system_info(), PlanetarySystem::new(&star).get_system_info());
    let galaxy = system.step_out();
    assert_eq!(galaxy.get_unit_count(), 0);
}

#[test]
fn step_in_at_a_planet_shows_the_same_environment() {
    let environment = Game::new(10).scene_id.step_in(3).step_in(2);
    let summary = environment.get_system_info();
    let units = stars_of(&environment);
    let star = environment.get_star_seed();
    let planet = environment.get_planet_seed();
    let again = environment.step_in(1);
    assert_eq!(again.get_scene_name(), SceneName::PlanetaryEnvironment);
    assert_eq!(again.get_system_info(), summary);
    assert_eq!(stars_of(&again), units);
    assert_eq!(again.get_star_seed(), star);
    assert_eq!(again.get_planet_seed(), planet);
    assert_eq!(again.get_galaxy_size(), 10);
}

#[test]
fn step_out_of_a_planet_shows_the_whole_system_again() {
    let system = Game::new(10).scene_id.step_in(3);
    let summary = system.get_system_info();
    let units = stars_of(&system);
    let star = system.get_star_seed();
    let environment = system.step_in(2);
    let planet = environment.get_planet_seed();
    let back = environment.step_out();
    assert_eq!(back.get_scene_name(), SceneName::PlanetarySystem);
    assert_eq!(back.get_system_info(), summary);
    assert_eq!(stars_of(&back), units);
    assert_eq!(back.get_star_seed(), star);
    assert_eq!(back.get_planet_seed(), planet);
    assert_eq!(back.get_galaxy_size(), 10);
}

#[test]
fn scene_starts_with_a_star_and_its_first_planet_in_memory() {
    let scene = Scene::new(7);
    assert_eq!(scene.get_galaxy_size(), 7);
    assert_eq!(scene.get_state().get_stars().len(), 7);
    assert_eq!(scene.get_planet_seed(), Planet::new(&scene.get_star_seed(), 1));
    let star = scene.get_state().get_stars()[6];
    let system = scene.descend(6);
    assert_eq!(system.get_star_seed(), star);
    assert_eq!(system.get_state().get_planets(), PlanetarySystem::new(&star).get_planets());
    let planet = system.get_state().get_planets()[0];
    let environment = system.descend(0);
    assert_eq!(environment.get_planet_seed(), planet);
    assert_eq!(
        environment.get_state().get_biosphere(),
        PlanetaryEnvironment::new(&planet).get_biosphere()
    );
    let again = environment.descend();
    assert_eq!(again.get_planet_seed(), planet);
    let system = again.ascend();
    assert_eq!(system.get_state().get_planets(), PlanetarySystem::new(&star).get_planets());
    let galaxy = system.ascend();
    assert_eq!(galaxy.get_state().get_stars().len(), 7);
    assert_eq!(galaxy.get_star_seed(), star);
    assert_eq!(galaxy.get_planet_seed(), planet);
}
