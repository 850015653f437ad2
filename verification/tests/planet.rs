use astrobiology::planet_generator::{scale_by_power_of_ten, Ocean, Planet, PlanetClass};
use astrobiology::star_generator::{Star, StarClass, StarColor};

fn star(age: u16, temperature: u16) -> Star {
    Star { class: StarClass::G, color: StarColor::Yellow, mass: 90, age, temperature }
}

#[test]
fn same_star_and_distance_give_the_same_planet() {
    for age in [1u16, 8, 400, 1000, 1001, 2000, 13000, u16::MAX] {
        for temperature in [2000u16, 5800, 10000, 50000] {
            for distance in 1..=12u8 {
                let first = Planet::new(&star(age, temperature), distance);
                let second = Planet::new(&star(age, temperature), distance);
                assert_eq!(first, second);
                assert_eq!(first.distance_from_star, distance);
            }
        }
    }
}

#[test]
fn planet_depends_on_age_and_temperature_of_the_star_only() {
    let one = Star { class: StarClass::G, color: StarColor::Yellow, mass: 90, age: 2000, temperature: 5800 };
    let other = Star { class: StarClass::Giant, color: StarColor::Red, mass: 150, age: 2000, temperature: 5800 };
    for distance in 1..=12u8 {
        assert_eq!(Planet::new(&one, distance), Planet::new(&other, distance));
    }
}

#[test]
fn planet_of_seed_6000_is_pinned() {
    let planet = Planet::new(&star(2000, 5800), 3);
    assert_eq!(planet.class, PlanetClass::Rocky);
    assert_eq!(planet.mass, 7083);
    assert_eq!(planet.pressure, 2000000);
    assert_eq!(planet.temperature, 314);
    assert!(planet.magnetic_field);
    assert_eq!(planet.ocean, Ocean::Water);
    assert!(planet.habitable);
}

#[test]
fn seed_6000_under_a_cooler_star_keeps_mass_and_class() {
    let planet = Planet::new(&star(2000, 3600), 3);
    assert_eq!(planet.class, PlanetClass::Rocky);
    assert_eq!(planet.mass, 7083);
    assert_eq!(planet.pressure, 2000000);
    assert_eq!(planet.temperature, 253);
    assert_eq!(planet.ocean, Ocean::Dry);
    assert!(!planet.habitable);
}

#[test]
fn outer_planets_are_pinned() {
    let ice = Planet::new(&star(5000, 5800), 7);
    assert_eq!(ice.class, PlanetClass::IceGiant);
    assert_eq!(ice.mass, 463148);
    assert_eq!(ice.temperature, 182);
    let gas = Planet::new(&star(13000, 2000), 12);
    assert_eq!(gas.class, PlanetClass::GasGiant);
    assert_eq!(gas.mass, 584445);
    assert_eq!(gas.pressure, 400);
    assert_eq!(gas.temperature, 156);
}

#[test]
fn generated_planets_keep_their_invariants() {
    for age in (1..=13000u16).step_by(97) {
        for temperature in [2000u16, 3700, 4600, 5800, 9900, 26500, 50000] {
            for distance in 1..=12u8 {
                let planet = Planet::new(&star(age, temperature), distance);
                if planet.habitable {
                    assert_ne!(planet.ocean, Ocean::Dry);
                    assert!(planet.magnetic_field);
                    assert!(age > 1000);
                }
                assert_eq!(
                    planet.habitable,
                    planet.ocean != Ocean::Dry && planet.magnetic_field && age > 1000
                );
                assert_eq!(planet.magnetic_field, planet.mass >= 5000);
                assert_eq!(planet.class, Planet::classify(distance, planet.mass));
                assert_eq!(planet.ocean, Planet::thalassogenesis(planet.temperature, planet.pressure));
                let bare = temperature / (distance as u16 * distance as u16 * 4) + 3;
                if planet.mass > 1000 || bare < 100 {
                    assert!(planet.pressure >= 1 && planet.pressure <= 90_000_000);
                    assert_eq!(planet.temperature, bare + 150);
                } else {
                    assert_eq!(planet.pressure, 0);
                    assert_eq!(planet.temperature, bare);
                }
                if distance < 6 {
                    assert!(planet.mass >= 100 && planet.mass < 10000);
                    assert!(planet.class == PlanetClass::Dwarf || planet.class == PlanetClass::Rocky);
                } else if planet.mass > 1000 {
                    assert!(planet.mass >= 100000 && planet.mass < 1000000);
                } else {
                    assert!(planet.mass >= 100);
                    assert_eq!(planet.class, PlanetClass::Dwarf);
                }
            }
        }
    }
}

#[test]
fn seed_is_age_times_distance() {
    assert_eq!(Planet::seed(2000, 3), 6000);
    assert_eq!(Planet::seed(1, 1), 1);
    assert_eq!(Planet::seed(0, 200), 0);
    assert_eq!(Planet::seed(u16::MAX, u8::MAX), 16711425);
}

#[test]
fn planets_of_one_seed_share_the_first_draw() {
    // 2000 * 3 = 3000 * 2 = 6000 * 1
    let first = Planet::new(&star(2000, 5800), 3);
    let second = Planet::new(&star(3000, 5800), 2);
    let third = Planet::new(&star(6000, 5800), 1);
    assert_eq!(first.mass, second.mass);
    assert_eq!(first.mass, third.mass);
    assert_eq!(first.pressure, second.pressure);
    assert_ne!(first.temperature, second.temperature);
}

#[test]
fn giants_form_in_the_outer_system_only() {
    assert!(!Planet::forms_giant(5, 9999));
    assert!(!Planet::forms_giant(6, 1000));
    assert!(Planet::forms_giant(6, 1001));
    assert!(Planet::forms_giant(255, 9999));
    assert!(!Planet::forms_giant(1, 1001));
}

#[test]
fn atmospheres_form_on_heavy_or_cold_worlds() {
    assert!(Planet::forms_atmosphere(1001, 5000));
    assert!(!Planet::forms_atmosphere(1000, 100));
    assert!(Planet::forms_atmosphere(1000, 99));
    assert!(Planet::forms_atmosphere(100, 3));
    assert!(!Planet::forms_atmosphere(100, 1453));
}

#[test]
fn classify_draws_the_lines_between_classes() {
    assert_eq!(Planet::classify(1, 100), PlanetClass::Dwarf);
    assert_eq!(Planet::classify(5, 1000), PlanetClass::Dwarf);
    assert_eq!(Planet::classify(5, 1001), PlanetClass::Rocky);
    assert_eq!(Planet::classify(5, 9999), PlanetClass::Rocky);
    assert_eq!(Planet::classify(5, 600000), PlanetClass::Rocky);
    assert_eq!(Planet::classify(6, 1000), PlanetClass::Dwarf);
    assert_eq!(Planet::classify(6, 1001), PlanetClass::IceGiant);
    assert_eq!(Planet::classify(6, 100000), PlanetClass::IceGiant);
    assert_eq!(Planet::classify(6, 500000), PlanetClass::IceGiant);
    assert_eq!(Planet::classify(6, 500001), PlanetClass::GasGiant);
    assert_eq!(Planet::classify(255, 999999), PlanetClass::GasGiant);
}

#[test]
fn thalassogenesis_draws_the_lines_between_oceans() {
    assert_eq!(Planet::thalassogenesis(273, 1), Ocean::Water);
    assert_eq!(Planet::thalassogenesis(373, 1), Ocean::Water);
    assert_eq!(Planet::thalassogenesis(272, 1), Ocean::Dry);
    assert_eq!(Planet::thalassogenesis(374, 1), Ocean::Dry);
    assert_eq!(Planet::thalassogenesis(300, 0), Ocean::Dry);
    assert_eq!(Planet::thalassogenesis(196, 90_000_000), Ocean::Ammonia);
    assert_eq!(Planet::thalassogenesis(240, 1), Ocean::Ammonia);
    assert_eq!(Planet::thalassogenesis(195, 1), Ocean::Dry);
    assert_eq!(Planet::thalassogenesis(241, 1), Ocean::Dry);
    assert_eq!(Planet::thalassogenesis(220, 0), Ocean::Dry);
    assert_eq!(Planet::thalassogenesis(0, 5), Ocean::Dry);
    assert_eq!(Planet::thalassogenesis(u16::MAX, u32::MAX), Ocean::Dry);
}

#[test]
fn temperature_falls_with_the_square_of_the_distance() {
    assert_eq!(Planet::temperature_without_atmosphere(5800, 1), 1453);
    assert_eq!(Planet::temperature_without_atmosphere(5800, 2), 365);
    assert_eq!(Planet::temperature_without_atmosphere(5800, 3), 164);
    assert_eq!(Planet::temperature_without_atmosphere(5800, 12), 13);
    assert_eq!(Planet::temperature_without_atmosphere(0, 1), 3);
    assert_eq!(Planet::temperature_without_atmosphere(u16::MAX, 1), 16386);
    assert_eq!(Planet::temperature_without_atmosphere(u16::MAX, 255), 3);
    assert_eq!(Planet::temperature_without_atmosphere(35, 3), 3);
    assert_eq!(Planet::temperature_without_atmosphere(36, 3), 4);
}

#[test]
fn an_atmosphere_adds_150_kelvins() {
    assert_eq!(Planet::insulate(164, 0), 164);
    assert_eq!(Planet::insulate(164, 1), 314);
    assert_eq!(Planet::insulate(164, 90_000_000), 314);
    assert_eq!(Planet::insulate(16386, 7), 16536);
}

#[test]
fn pressure_is_a_digit_times_a_power_of_ten() {
    assert_eq!(scale_by_power_of_ten(1, 0), 1);
    assert_eq!(scale_by_power_of_ten(9, 0), 9);
    assert_eq!(scale_by_power_of_ten(2, 6), 2_000_000);
    assert_eq!(scale_by_power_of_ten(9, 7), 90_000_000);
    assert_eq!(scale_by_power_of_ten(4, 9), 4_000_000_000);
    assert_eq!(scale_by_power_of_ten(0, 30), 0);
}

#[test]
fn from_draws_derives_the_rest_of_the_planet() {
    let planet = Planet::from_draws(2000, 5000, 3, 6000, 100);
    assert_eq!(
        planet,
        Planet {
            class: PlanetClass::Rocky,
            distance_from_star: 3,
            mass: 6000,
            magnetic_field: true,
            pressure: 100,
            temperature: 291,
            ocean: Ocean::Water,
            habitable: true,
        }
    );
    // The star is just too young for life.
    assert!(!Planet::from_draws(1000, 5000, 3, 6000, 100).habitable);
    assert!(Planet::from_draws(1001, 5000, 3, 6000, 100).habitable);
    // No magnetic field below a mass of 5000.
    let light = Planet::from_draws(2000, 5000, 3, 4999, 100);
    assert!(!light.magnetic_field);
    assert_eq!(light.ocean, Ocean::Water);
    assert!(!light.habitable);
    assert!(Planet::from_draws(2000, 5000, 3, 5000, 100).magnetic_field);
    // A cold giant with an ocean of ammonia: 8900 / 196 + 3 + 150 = 198.
    let cold = Planet::from_draws(2000, 8900, 7, 300000, 50);
    assert_eq!(cold.temperature, 198);
    assert_eq!(cold.class, PlanetClass::IceGiant);
    assert_eq!(cold.ocean, Ocean::Ammonia);
    assert!(cold.habitable);
    // Without an atmosphere there is neither insulation nor an ocean.
    let bare = Planet::from_draws(2000, 10000, 3, 500, 0);
    assert_eq!(bare.temperature, 280);
    assert_eq!(bare.class, PlanetClass::Dwarf);
    assert_eq!(bare.ocean, Ocean::Dry);
    assert!(!bare.habitable);
}

#[test]
fn planet_info_reads_as_a_sentence() {
    let planet = Planet::new(&star(2000, 5800), 3);
    assert_eq!(
        planet.get_info(),
        "This is a Rocky planet, which is 3 AU from its star, temperature: 314 K, \
         pressure: 2000000, mass: 7083, magnetic field: true, and it's true that there is life here."
    );
    let first = Planet::new(&star(2000, 5800), 1);
    assert_eq!(
        first.get_info(),
        "This is a Rocky planet, which is 1 AU from its star, temperature: 1603 K, \
         pressure: 9000000, mass: 5087, magnetic field: true, and it's false that there is life here."
    );
}

#[test]
fn planet_class_labels() {
    assert_eq!(PlanetClass::Rocky.label(), "Rocky");
    assert_eq!(PlanetClass::GasGiant.label(), "GasGiant");
    assert_eq!(PlanetClass::IceGiant.label(), "IceGiant");
    assert_eq!(PlanetClass::Dwarf.label(), "Dwarf");
}

#[test]
fn planet_getters_hand_out_the_fields() {
    let planet = Planet::new(&star(2000, 5800), 3);
    assert_eq!(planet.get_class(), planet.class);
    assert_eq!(planet.get_temperature(), planet.temperature);
    assert_eq!(planet.get_ocean(), planet.ocean);
    assert_eq!(planet.get_habitability(), planet.habitable);
}
