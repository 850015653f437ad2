use astrobiology::game_manager::{Scene, SceneName};
use astrobiology::organism_generator::Organism;
use astrobiology::planet_generator::{Ocean, Planet, PlanetClass};
use astrobiology::planetary_environment_generator::{moons_range, PlanetaryEnvironment};
use astrobiology::star_generator::{Star, StarClass, StarColor};

fn star(age: u16, temperature: u16) -> Star {
    Star { class: StarClass::G, color: StarColor::Yellow, mass: 90, age, temperature }
}

#[test]
fn barren_planet_has_no_organisms() {
    let mut barren = 0;
    for age in (1..=13000u16).step_by(211) {
        for distance in 1..=12u8 {
            let planet = Planet::new(&star(age, 5800), distance);
            let environment = PlanetaryEnvironment::new(&planet);
            if !planet.habitable {
                assert!(environment.get_biosphere().is_empty());
                assert_eq!(environment.get_unit_info(0), "Invalid coordinates.");
                barren += 1;
            } else {
                assert!((3..=12).contains(&environment.get_biosphere().len()));
            }
        }
    }
    assert!(barren > 0);
    // A planet with an ocean that is not habitable has none either.
    let young = Planet::from_draws(1000, 5000, 3, 6000, 100);
    assert_eq!(young.ocean, Ocean::Water);
    assert!(PlanetaryEnvironment::new(&young).get_biosphere().is_empty());
}

#[test]
fn moons_stay_within_the_bounds_of_the_class() {
    assert_eq!(moons_range(PlanetClass::Rocky), (0, 5));
    assert_eq!(moons_range(PlanetClass::Dwarf), (0, 5));
    assert_eq!(moons_range(PlanetClass::IceGiant), (15, 30));
    assert_eq!(moons_range(PlanetClass::GasGiant), (15, 80));
    let mut most = 0;
    for age in (1..=13000u16).step_by(53) {
        for distance in 1..=12u8 {
            let planet = Planet::new(&star(age, 9900), distance);
            let moons = PlanetaryEnvironment::new(&planet).get_moons();
            let (low, high) = moons_range(planet.class);
            assert!(low as usize <= moons && moons <= high as usize);
            most = most.max(moons);
        }
    }
    assert!(most > 30);
}

#[test]
fn organisms_are_seeded_by_temperature_and_slot() {
    let planet = Planet::new(&star(2000, 5800), 3);
    assert!(planet.habitable);
    assert_eq!(planet.temperature, 314);
    let environment = PlanetaryEnvironment::new(&planet);
    assert_eq!(environment.get_moons(), 0);
    assert_eq!(environment.get_biosphere().len(), 8);
    for (slot, organism) in environment.get_biosphere().iter().enumerate() {
        assert_eq!(*organism, Organism::new(&planet, 314 + slot as u64 + 1));
    }
    assert_eq!(environment.get_biosphere()[0].get_name(), "6r2Pk");
    assert_eq!(environment.get_biosphere()[1].get_name(), "esLgN");
}

#[test]
fn same_planet_gives_the_same_environment() {
    for distance in 1..=12u8 {
        let planet = Planet::new(&star(2000, 5800), distance);
        let first = PlanetaryEnvironment::new(&planet);
        let second = PlanetaryEnvironment::new(&planet);
        assert_eq!(first.get_moons(), second.get_moons());
        assert_eq!(first.get_biosphere(), second.get_biosphere());
    }
}

#[test]
fn moon_counts_are_pinned() {
    let ice = Planet::new(&star(5000, 5800), 7);
    assert_eq!(ice.class, PlanetClass::IceGiant);
    assert_eq!(PlanetaryEnvironment::new(&ice).get_moons(), 26);
    let gas = Planet::new(&star(13000, 2000), 12);
    assert_eq!(gas.class, PlanetClass::GasGiant);
    assert_eq!(PlanetaryEnvironment::new(&gas).get_moons(), 53);
}

#[test]
fn generate_organisms_makes_as_many_as_asked() {
    let planet = Planet::new(&star(2000, 5800), 3);
    assert!(PlanetaryEnvironment::generate_organisms(&planet, 0).is_empty());
    let three = PlanetaryEnvironment::generate_organisms(&planet, 3);
    assert_eq!(three.len(), 3);
    assert_eq!(three[2], Organism::new(&planet, 317));
    assert_eq!(PlanetaryEnvironment::generate_organisms(&planet, 255).len(), 255);
    let barren = Planet::new(&star(2000, 3600), 3);
    assert!(PlanetaryEnvironment::generate_organisms(&barren, 12).is_empty());
}

#[test]
fn from_draws_takes_the_numbers_as_they_are() {
    let planet = Planet::new(&star(2000, 5800), 3);
    let environment = PlanetaryEnvironment::from_draws(&planet, 4, 3);
    assert_eq!(environment.get_moons(), 4);
    assert_eq!(environment.get_biosphere().len(), 3);
    assert_eq!(environment.get_biosphere()[0], Organism::new(&planet, 315));
    assert_eq!(
        environment.get_system_info(),
        "There are 4 moons and SingleCell_0 SingleCell_1 SingleCell_2 "
    );
    let barren = Planet::new(&star(2000, 3600), 3);
    let environment = PlanetaryEnvironment::from_draws(&barren, 80, 12);
    assert_eq!(environment.get_moons(), 80);
    assert!(environment.get_biosphere().is_empty());
    assert_eq!(environment.get_system_info(), "There are 80 moons and ");
}

#[test]
fn hottest_planet_seeds_its_organisms_without_overflow() {
    let hot = Planet {
        class: PlanetClass::Rocky,
        distance_from_star: 1,
        mass: 6000,
        magnetic_field: true,
        pressure: 100,
        temperature: u16::MAX,
        ocean: Ocean::Water,
        habitable: true,
    };
    let organisms = PlanetaryEnvironment::generate_organisms(&hot, 2);
    assert_eq!(organisms[0], Organism::new(&hot, 65536));
    assert_eq!(organisms[1], Organism::new(&hot, 65537));
}

#[test]
fn environment_info_lists_the_sizes() {
    let planet = Planet::new(&star(2000, 5800), 3);
    let environment = PlanetaryEnvironment::new(&planet);
    assert_eq!(environment.get_scene_name(), SceneName::PlanetaryEnvironment);
    assert_eq!(
        environment.get_system_info(),
        "There are 0 moons and SingleCell_0 SingleCell_1 SingleCell_2 SingleCell_3 SingleCell_4 \
         SingleCell_5 SingleCell_6 SingleCell_7 "
    );
    let gas = Planet::new(&star(13000, 2000), 12);
    assert_eq!(PlanetaryEnvironment::new(&gas).get_system_info(), "There are 53 moons and ");
}

#[test]
fn environment_unit_info_describes_an_organism_or_says_invalid() {
    let planet = Planet::new(&star(2000, 5800), 3);
    let environment = PlanetaryEnvironment::new(&planet);
    assert_eq!(
        environment.get_unit_info(0),
        "This organism is barcoded: 6r2Pk. It is SingleCell and Modular, has Asymmetrical symmetry, \
         is made of CarbonHydrogen, uses Water for a solvent, and is Anaerobic."
    );
    for index in 0..8 {
        assert_eq!(environment.get_unit_info(index), environment.get_biosphere()[index].get_info());
    }
    assert_eq!(environment.get_unit_info(8), "Invalid coordinates.");
    assert_eq!(environment.get_unit_info(usize::MAX), "Invalid coordinates.");
    assert_eq!(environment.get_biosphere().len(), 8);
}
