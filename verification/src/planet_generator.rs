//! Planets: class, atmosphere, ocean and habitability.
//!
//! A planet is generated from the age and the temperature of its star and
//! from its place in the system, the first planet at distance 1. The
//! generator is seeded with the star's age times the distance, so the same
//! star and distance give the same planet again.

use crate::rng::{draw_u32, drawn, seed_of, seeded, served, Draw};
use crate::star_generator::Star;
use crate::text::{decimal, push_decimal, push_truth, truth};
use rand::rngs::StdRng;
use vstd::arithmetic::div_mod::lemma_div_denominator;
use vstd::arithmetic::power::{lemma_pow_increases, pow};
use vstd::prelude::*;
use vstd::string::StringExecFns;

verus! {

/// In kelvins; keeps every world above absolute zero.
pub const BACKGROUND_TEMPERATURE: u16 = 3;

/// In kelvins; what an atmosphere adds to the temperature of the surface.
pub const ATMOSPHERIC_INSULATION: u16 = 150;

/// In kelvins; below it even a small world keeps an atmosphere.
pub const MAX_TEMP_FOR_ATMOSPHERE_ON_SMALL_WORLDS: u16 = 100;

/// Calibrates how fast the temperature drops with the distance from the star.
pub const DISTANCE_FROM_STAR_MODIFIER: u16 = 4;

/// In millions of years.
pub const MINIMUM_STAR_AGE_FOR_LIFE: u16 = 1000;

// Masses have no unit.
pub const MINIMUM_MASS_FOR_MAGNETOSPHERE: u32 = 5000;

pub const MINIMUM_MASS_FOR_ATMOSPHERE: u32 = 1000;

/// The heaviest dwarf.
pub const MAXIMUM_MASS_OF_DWARF: u32 = 1000;

/// The heaviest ice giant.
pub const MAXIMUM_MASS_OF_ICE_GIANT: u32 = 500000;

/// The first distance of the outer system, where giants form.
pub const INNER_SYSTEM_END: u8 = 6;

pub const SMALL_WORLD_MASS_MINIMUM: u32 = 100;

/// Every small world is lighter than this.
pub const SMALL_WORLD_MASS_END: u32 = 10000;

pub const GIANT_MASS_MINIMUM: u32 = 100000;

/// Every giant is lighter than this.
pub const GIANT_MASS_END: u32 = 1000000;

#[derive(Clone, Copy, Debug, PartialEq, Eq, Structural)]
pub enum PlanetClass {
    Rocky,
    GasGiant,
    IceGiant,
    Dwarf,
}

impl PlanetClass {
    /// The name of the class.
    pub open spec fn label_text(self) -> Seq<char> {
        match self {
            PlanetClass::Rocky => "Rocky"@,
            PlanetClass::GasGiant => "GasGiant"@,
            PlanetClass::IceGiant => "IceGiant"@,
            PlanetClass::Dwarf => "Dwarf"@,
        }
    }

    pub fn label(self) -> (label: &'static str)
        ensures
            label@ == self.label_text(),
    {
        match self {
            PlanetClass::Rocky => "Rocky",
            PlanetClass::GasGiant => "GasGiant",
            PlanetClass::IceGiant => "IceGiant",
            PlanetClass::Dwarf => "Dwarf",
        }
    }
}

/// What covers the surface of a planet.
#[derive(Clone, Copy, Debug, PartialEq, Eq, Structural)]
pub enum Ocean {
    Water,
    Ammonia,
    Dry,
}

/// A planet. Its mass has no unit; its distance is its place in the system,
/// the nearest planet at 1.
#[derive(Clone, Copy, Debug, PartialEq, Eq, Structural)]
pub struct Planet {
    pub class: PlanetClass,
    pub distance_from_star: u8,
    pub mass: u32,
    pub magnetic_field: bool,
    pub pressure: u32,
    /// In kelvins.
    pub temperature: u16,
    pub ocean: Ocean,
    pub habitable: bool,
}

/// The seed of the planet at `distance` from a star of age `star_age`.
pub open spec fn planet_seed(star_age: u16, distance: u8) -> u64 {
    (star_age * distance) as u64
}

/// The draw of a small world's mass.
pub open spec fn small_mass_draw() -> Draw {
    Draw::Number { bits: 32, low: SMALL_WORLD_MASS_MINIMUM as int, high: SMALL_WORLD_MASS_END - 1 }
}

/// The draw of a giant's mass.
pub open spec fn giant_mass_draw() -> Draw {
    Draw::Number { bits: 32, low: GIANT_MASS_MINIMUM as int, high: GIANT_MASS_END - 1 }
}

/// The draw of the leading digit of a pressure.
pub open spec fn pressure_digit_draw() -> Draw {
    Draw::Number { bits: 32, low: 1, high: 9 }
}

/// The draw of the power of ten of a pressure.
pub open spec fn pressure_exponent_draw() -> Draw {
    Draw::Number { bits: 32, low: 0, high: 7 }
}

/// The mass that a generator made from `seed` first hands out.
pub open spec fn small_mass(seed: u64, earlier: Seq<Draw>) -> int {
    drawn(seed, earlier, 32, SMALL_WORLD_MASS_MINIMUM as int, SMALL_WORLD_MASS_END - 1)
}

/// Whether the mass of a planet is drawn a second time: in the outer system
/// a world too heavy for a dwarf is a giant.
pub open spec fn forms_giant(distance: u8, first_mass: int) -> bool {
    distance >= INNER_SYSTEM_END && first_mass > MAXIMUM_MASS_OF_DWARF
}

/// The mass of the planet at `distance` that a generator made from `seed`
/// hands out after `earlier`.
pub open spec fn mass_of(seed: u64, earlier: Seq<Draw>, distance: u8) -> int {
    if forms_giant(distance, small_mass(seed, earlier)) {
        drawn(
            seed,
            earlier.push(small_mass_draw()),
            32,
            GIANT_MASS_MINIMUM as int,
            GIANT_MASS_END - 1,
        )
    } else {
        small_mass(seed, earlier)
    }
}

/// What the generator has served once the mass is settled.
pub open spec fn served_after_mass(seed: u64, earlier: Seq<Draw>, distance: u8) -> Seq<Draw> {
    if forms_giant(distance, small_mass(seed, earlier)) {
        earlier.push(small_mass_draw()).push(giant_mass_draw())
    } else {
        earlier.push(small_mass_draw())
    }
}

/// The class of a planet of `mass` at `distance`: a dwarf up to a mass of
/// 1000; above it a rocky planet in the inner system, and in the outer system
/// an ice giant up to a mass of 500000 and a gas giant beyond.
pub open spec fn class_of(distance: u8, mass: u32) -> PlanetClass {
    if mass <= MAXIMUM_MASS_OF_DWARF {
        PlanetClass::Dwarf
    } else if distance < INNER_SYSTEM_END {
        PlanetClass::Rocky
    } else if mass <= MAXIMUM_MASS_OF_ICE_GIANT {
        PlanetClass::IceGiant
    } else {
        PlanetClass::GasGiant
    }
}

/// The temperature of a bare surface at `distance` from a star: the star's
/// temperature divided by the distance, by the distance again and by the
/// modifier, rounded down each time, above the background.
pub open spec fn bare_temperature(star_temperature: u16, distance: u8) -> int {
    star_temperature as int / (distance as int) / (distance as int) / (
    DISTANCE_FROM_STAR_MODIFIER as int) + BACKGROUND_TEMPERATURE
}

/// The temperature of a bare surface is the star's temperature divided by
/// four times the square of the distance, rounded down, above the
/// background.
pub proof fn bare_temperature_falls_with_square(star_temperature: u16, distance: u8)
    requires
        distance >= 1,
    ensures
        distance * distance * DISTANCE_FROM_STAR_MODIFIER > 0,
        bare_temperature(star_temperature, distance) == star_temperature as int / (distance
            * distance * DISTANCE_FROM_STAR_MODIFIER) + BACKGROUND_TEMPERATURE,
{
    let t = star_temperature as int;
    let d = distance as int;
    lemma_div_denominator(t, d, d);
    lemma_div_denominator(t, d * d, 4);
}

/// Whether an atmosphere forms: on every world heavier than a dwarf, and on
/// the others where it is cold enough.
pub open spec fn forms_atmosphere(mass: u32, bare: int) -> bool {
    mass > MINIMUM_MASS_FOR_ATMOSPHERE || bare < MAX_TEMP_FOR_ATMOSPHERE_ON_SMALL_WORLDS
}

/// The pressure of an atmosphere that a generator made from `seed` hands out
/// after `earlier`: a digit from 1 to 9 times a power of ten up to the
/// seventh.
pub open spec fn pressure_drawn(seed: u64, earlier: Seq<Draw>) -> int {
    drawn(seed, earlier, 32, 1, 9) * pow(
        10,
        drawn(seed, earlier.push(pressure_digit_draw()), 32, 0, 7) as nat,
    )
}

/// The temperature of a surface under `pressure`: an atmosphere insulates.
pub open spec fn surface_temperature(bare: int, pressure: u32) -> int {
    if pressure > 0 {
        bare + ATMOSPHERIC_INSULATION
    } else {
        bare
    }
}

/// The ocean that a surface at `temperature` kelvins under `pressure` holds:
/// water between 273 K and 373 K, ammonia between 196 K and 240 K, and
/// nothing without an atmosphere to keep a liquid down.
pub open spec fn ocean_of(temperature: u16, pressure: u32) -> Ocean {
    if 273 <= temperature <= 373 && pressure > 0 {
        Ocean::Water
    } else if 196 <= temperature <= 240 && pressure > 0 {
        Ocean::Ammonia
    } else {
        Ocean::Dry
    }
}

/// Whether life can start: an ocean, a magnetic field to shield it, and a
/// star old enough.
pub open spec fn is_habitable(ocean: Ocean, magnetic_field: bool, star_age: u16) -> bool {
    ocean != Ocean::Dry && magnetic_field && star_age > MINIMUM_STAR_AGE_FOR_LIFE
}

/// The planet of `mass` and `pressure` at `distance` from a star of the
/// given age and temperature.
pub open spec fn planet_from(
    star_age: u16,
    star_temperature: u16,
    distance: u8,
    mass: u32,
    pressure: u32,
) -> Planet {
    let temperature = surface_temperature(
        bare_temperature(star_temperature, distance),
        pressure,
    ) as u16;
    let magnetic_field = mass >= MINIMUM_MASS_FOR_MAGNETOSPHERE;
    let ocean = ocean_of(temperature, pressure);
    Planet {
        class: class_of(distance, mass),
        distance_from_star: distance,
        mass,
        magnetic_field,
        pressure,
        temperature,
        ocean,
        habitable: is_habitable(ocean, magnetic_field, star_age),
    }
}

/// The planet at `distance` from a star of the given age and temperature.
pub open spec fn planet_of(star_age: u16, star_temperature: u16, distance: u8) -> Planet {
    let seed = planet_seed(star_age, distance);
    let mass = mass_of(seed, Seq::empty(), distance) as u32;
    let pressure = if forms_atmosphere(mass, bare_temperature(star_temperature, distance)) {
        pressure_drawn(seed, served_after_mass(seed, Seq::empty(), distance)) as u32
    } else {
        0
    };
    planet_from(star_age, star_temperature, distance, mass, pressure)
}

/// Ten to the seventh, the greatest power of ten of a pressure.
proof fn lemma_pow10_bound(exponent: nat)
    requires
        exponent <= 7,
    ensures
        1 <= pow(10, exponent) <= 10_000_000,
{
    reveal_with_fuel(pow, 8);
    assert(pow(10, 7) == 10_000_000);
    lemma_pow_increases(10, exponent, 7);
    lemma_pow_increases(10, 0, exponent);
}

/// `digit` times ten to the `exponent`.
pub fn scale_by_power_of_ten(digit: u32, exponent: u32) -> (scaled: u32)
    requires
        digit * pow(10, exponent as nat) <= u32::MAX,
    ensures
        scaled == digit * pow(10, exponent as nat),
{
    let mut scaled = digit;
    let mut done: u32 = 0;
    proof {
        reveal_with_fuel(pow, 1);
    }
    while done < exponent
        invariant
            done <= exponent,
            scaled == digit * pow(10, done as nat),
            digit * pow(10, exponent as nat) <= u32::MAX,
        decreases exponent - done,
    {
        proof {
            reveal_with_fuel(pow, 2);
            assert(pow(10, (done + 1) as nat) == 10 * pow(10, done as nat));
            lemma_pow_increases(10, (done + 1) as nat, exponent as nat);
            assert(digit * pow(10, (done + 1) as nat) <= digit * pow(10, exponent as nat))
                by (nonlinear_arith)
                requires
                    pow(10, (done + 1) as nat) <= pow(10, exponent as nat),
            ;
            assert(digit * (10 * pow(10, done as nat)) == 10 * (digit * pow(10, done as nat)))
                by (nonlinear_arith);
        }
        scaled = scaled * 10;
        done += 1;
    }
    scaled
}

impl Planet {
    /// Generates the planet at `distance` from `star`. Two calls for the same
    /// age, temperature and distance return the same planet.
    pub fn new(star: &Star, distance: u8) -> (planet: Planet)
        requires
            distance >= 1,
        ensures
            planet == planet_of(star.age, star.temperature, distance),
            planet.wf(),
    {
        let mut rng = seeded(Self::seed(star.age, distance));
        let size = Self::calculate_mass_and_class(&mut rng, distance);
        let atmosphere = Self::calculate_temperature_and_pressure(
            distance,
            star.temperature,
            &mut rng,
            size.0,
        );
        Self::from_draws(star.age, star.temperature, distance, size.0, atmosphere.1)
    }

    /// The seed of the planet at `distance` from a star of age `star_age`:
    /// the product of the two.
    pub fn seed(star_age: u16, distance: u8) -> (seed: u64)
        ensures
            seed == planet_seed(star_age, distance),
            seed == star_age * distance,
    {
        assert(star_age * distance <= 65535 * 255) by (nonlinear_arith)
            requires
                star_age <= 65535,
                distance <= 255,
        ;
        star_age as u64 * distance as u64
    }

    /// Whether a world of mass `first_mass` at `distance` is a giant, whose
    /// mass is drawn again.
    pub fn forms_giant(distance: u8, first_mass: u32) -> (giant: bool)
        ensures
            giant == forms_giant(distance, first_mass as int),
    {
        distance >= INNER_SYSTEM_END && first_mass > MAXIMUM_MASS_OF_DWARF
    }

    /// Whether an atmosphere forms on a world of `mass` whose bare surface is
    /// at `bare` kelvins.
    pub fn forms_atmosphere(mass: u32, bare: u16) -> (forms: bool)
        ensures
            forms == forms_atmosphere(mass, bare as int),
    {
        mass > MINIMUM_MASS_FOR_ATMOSPHERE || bare < MAX_TEMP_FOR_ATMOSPHERE_ON_SMALL_WORLDS
    }

    /// Draws the mass of the planet at `distance` and names its class.
    fn calculate_mass_and_class(rng: &mut StdRng, distance: u8) -> (size: (u32, PlanetClass))
        ensures
            size.0 == mass_of(seed_of(*old(rng)), served(*old(rng)), distance),
            size.1 == class_of(distance, size.0),
            SMALL_WORLD_MASS_MINIMUM <= size.0 < GIANT_MASS_END,
            seed_of(*final(rng)) == seed_of(*old(rng)),
            served(*final(rng)) == served_after_mass(
                seed_of(*old(rng)),
                served(*old(rng)),
                distance,
            ),
    {
        let mut mass = draw_u32(rng, SMALL_WORLD_MASS_MINIMUM, SMALL_WORLD_MASS_END - 1);
        if Self::forms_giant(distance, mass) {
            mass = draw_u32(rng, GIANT_MASS_MINIMUM, GIANT_MASS_END - 1);
        }
        (mass, Self::classify(distance, mass))
    }

    /// The class of a planet of `mass` at `distance`.
    pub fn classify(distance: u8, mass: u32) -> (class: PlanetClass)
        ensures
            class == class_of(distance, mass),
    {
        if mass <= MAXIMUM_MASS_OF_DWARF {
            PlanetClass::Dwarf
        } else if distance < INNER_SYSTEM_END {
            PlanetClass::Rocky
        } else if mass <= MAXIMUM_MASS_OF_ICE_GIANT {
            PlanetClass::IceGiant
        } else {
            PlanetClass::GasGiant
        }
    }

    /// The temperature of a bare surface at `distance` from a star.
    pub fn temperature_without_atmosphere(star_temperature: u16, distance: u8) -> (bare: u16)
        requires
            distance >= 1,
        ensures
            bare == bare_temperature(star_temperature, distance),
            bare + ATMOSPHERIC_INSULATION <= u16::MAX,
    {
        assert(1 <= distance * distance <= 255 * 255) by (nonlinear_arith)
            requires
                1 <= distance <= 255,
        ;
        let square: u32 = distance as u32 * distance as u32;
        assert(1 <= square <= 255 * 255) by (nonlinear_arith)
            requires
                square == distance * distance,
                1 <= distance <= 255,
        ;
        assert(4 <= square * DISTANCE_FROM_STAR_MODIFIER <= 4 * 255 * 255) by (nonlinear_arith)
            requires
                1 <= square <= 255 * 255,
                DISTANCE_FROM_STAR_MODIFIER == 4,
        ;
        let spread: u32 = square * DISTANCE_FROM_STAR_MODIFIER as u32;
        let share: u32 = star_temperature as u32 / spread;
        proof {
            bare_temperature_falls_with_square(star_temperature, distance);
            assert(share <= star_temperature) by (nonlinear_arith)
                requires
                    share == star_temperature as int / (spread as int),
                    spread >= 1,
            ;
        }
        (share + BACKGROUND_TEMPERATURE as u32) as u16
    }

    /// Works out the temperature of the surface, and draws the pressure where
    /// an atmosphere forms.
    fn calculate_temperature_and_pressure(
        distance: u8,
        star_temperature: u16,
        rng: &mut StdRng,
        mass: u32,
    ) -> (atmosphere: (u16, u32))
        requires
            distance >= 1,
        ensures
            atmosphere.1 == if forms_atmosphere(
                mass,
                bare_temperature(star_temperature, distance),
            ) {
                pressure_drawn(seed_of(*old(rng)), served(*old(rng)))
            } else {
                0
            },
            atmosphere.0 == surface_temperature(
                bare_temperature(star_temperature, distance),
                atmosphere.1,
            ),
            seed_of(*final(rng)) == seed_of(*old(rng)),
            served(*final(rng)) == if forms_atmosphere(
                mass,
                bare_temperature(star_temperature, distance),
            ) {
                served(*old(rng)).push(pressure_digit_draw()).push(pressure_exponent_draw())
            } else {
                served(*old(rng))
            },
    {
        let bare = Self::temperature_without_atmosphere(star_temperature, distance);
        let mut pressure: u32 = 0;
        if Self::forms_atmosphere(mass, bare) {
            let digit = draw_u32(rng, 1, 9);
            let exponent = draw_u32(rng, 0, 7);
            proof {
                lemma_pow10_bound(exponent as nat);
                assert(1 <= digit * pow(10, exponent as nat) <= 90_000_000) by (nonlinear_arith)
                    requires
                        1 <= digit <= 9,
                        1 <= pow(10, exponent as nat) <= 10_000_000,
                ;
            }
            pressure = scale_by_power_of_ten(digit, exponent);
        }
        (Self::insulate(bare, pressure), pressure)
    }

    /// The temperature of a surface that would be at `bare` kelvins without
    /// its atmosphere of `pressure`.
    pub fn insulate(bare: u16, pressure: u32) -> (temperature: u16)
        requires
            bare + ATMOSPHERIC_INSULATION <= u16::MAX,
        ensures
            temperature == surface_temperature(bare as int, pressure),
    {
        if pressure > 0 {
            bare + ATMOSPHERIC_INSULATION
        } else {
            bare
        }
    }

    pub fn thalassogenesis(temperature: u16, pressure: u32) -> (ocean: Ocean)
        ensures
            ocean == ocean_of(temperature, pressure),
    {
        if temperature >= 273 && temperature <= 373 && pressure > 0 {
            Ocean::Water
        } else if temperature >= 196 && temperature <= 240 && pressure > 0 {
            Ocean::Ammonia
        } else {
            Ocean::Dry
        }
    }

    /// Builds the planet from the values drawn for it: everything but the
    /// mass and the pressure follows from them, from the star and from the
    /// distance.
    pub fn from_draws(
        star_age: u16,
        star_temperature: u16,
        distance: u8,
        mass: u32,
        pressure: u32,
    ) -> (planet: Planet)
        requires
            distance >= 1,
        ensures
            planet == planet_from(star_age, star_temperature, distance, mass, pressure),
            planet.wf(),
    {
        let bare = Self::temperature_without_atmosphere(star_temperature, distance);
        let temperature = Self::insulate(bare, pressure);
        let magnetic_field = mass >= MINIMUM_MASS_FOR_MAGNETOSPHERE;
        let ocean = Self::thalassogenesis(temperature, pressure);
        let habitable = ocean != Ocean::Dry && magnetic_field && star_age
            > MINIMUM_STAR_AGE_FOR_LIFE;
        Planet {
            class: Self::classify(distance, mass),
            distance_from_star: distance,
            mass,
            magnetic_field,
            pressure,
            temperature,
            ocean,
            habitable,
        }
    }

    /// The description of the planet.
    pub open spec fn info_text(self) -> Seq<char> {
        "This is a "@ + self.class.label_text() + " planet, which is "@ + decimal(
            self.distance_from_star as nat,
        ) + " AU from its star, temperature: "@ + decimal(self.temperature as nat)
            + " K, pressure: "@ + decimal(self.pressure as nat) + ", mass: "@ + decimal(
            self.mass as nat,
        ) + ", magnetic field: "@ + truth(self.magnetic_field) + ", and it's "@ + truth(
            self.habitable,
        ) + " that there is life here."@
    }

    pub fn get_info(&self) -> (info: String)
        ensures
            info@ == self.info_text(),
    {
        let mut info = String::from_str("This is a ");
        info.append(self.class.label());
        info.append(" planet, which is ");
        push_decimal(&mut info, self.distance_from_star as u64);
        info.append(" AU from its star, temperature: ");
        push_decimal(&mut info, self.temperature as u64);
        info.append(" K, pressure: ");
        push_decimal(&mut info, self.pressure as u64);
        info.append(", mass: ");
        push_decimal(&mut info, self.mass as u64);
        info.append(", magnetic field: ");
        push_truth(&mut info, self.magnetic_field);
        info.append(", and it's ");
        push_truth(&mut info, self.habitable);
        info.append(" that there is life here.");
        info
    }

    pub fn get_class(&self) -> (class: PlanetClass)
        ensures
            class == self.class,
    {
        self.class
    }

    pub fn get_temperature(&self) -> (temperature: u16)
        ensures
            temperature == self.temperature,
    {
        self.temperature
    }

    pub fn get_ocean(&self) -> (ocean: Ocean)
        ensures
            ocean == self.ocean,
    {
        self.ocean
    }

    pub fn get_habitability(&self) -> (habitable: bool)
        ensures
            habitable == self.habitable,
    {
        self.habitable
    }

    /// What holds of every planet that the generator makes, whatever the
    /// star: it has a place in the system, its class, magnetic field and
    /// ocean follow from its mass, temperature and pressure, and it is
    /// habitable only with an ocean and a magnetic field.
    pub open spec fn wf(self) -> bool {
        &&& self.distance_from_star >= 1
        &&& self.class == class_of(self.distance_from_star, self.mass)
        &&& self.magnetic_field == (self.mass >= MINIMUM_MASS_FOR_MAGNETOSPHERE)
        &&& self.ocean == ocean_of(self.temperature, self.pressure)
        &&& self.habitable ==> self.ocean != Ocean::Dry && self.magnetic_field
    }
}

/// The planet depends on the age and the temperature of its star and on the
/// distance alone: stars that agree in both have the same planets.
pub proof fn planet_is_determined(first: Star, second: Star, distance: u8)
    requires
        first.age == second.age,
        first.temperature == second.temperature,
    ensures
        planet_of(first.age, first.temperature, distance) == planet_of(
            second.age,
            second.temperature,
            distance,
        ),
{
}

/// The mass, the class, the magnetic field and the pressure of a planet
/// depend on the age of its star and on the distance alone, but for the
/// pressure of a small world, which has an atmosphere only where it is cold.
pub proof fn planet_size_is_determined_by_age(
    star_age: u16,
    first_temperature: u16,
    second_temperature: u16,
    distance: u8,
)
    ensures
        ({
            let first = planet_of(star_age, first_temperature, distance);
            let second = planet_of(star_age, second_temperature, distance);
            &&& first.mass == second.mass
            &&& first.class == second.class
            &&& first.magnetic_field == second.magnetic_field
            &&& first.distance_from_star == second.distance_from_star
            &&& first.mass > MINIMUM_MASS_FOR_ATMOSPHERE ==> first.pressure == second.pressure
        }),
{
}

/// A habitable planet has an ocean and a magnetic field, and a star that is
/// old enough for life, whatever the star and the distance.
pub proof fn habitable_planet_has_ocean(star_age: u16, star_temperature: u16, distance: u8)
    ensures
        ({
            let planet = planet_of(star_age, star_temperature, distance);
            planet.habitable ==> {
                &&& planet.ocean != Ocean::Dry
                &&& planet.magnetic_field
                &&& star_age > MINIMUM_STAR_AGE_FOR_LIFE
            }
        }),
{
}

/// An ocean of water lies between 273 K and 373 K and an ocean of ammonia
/// between 196 K and 240 K, both under an atmosphere.
pub proof fn oceans_lie_in_their_bands(star_age: u16, star_temperature: u16, distance: u8)
    ensures
        ({
            let planet = planet_of(star_age, star_temperature, distance);
            &&& planet.ocean == Ocean::Water ==> 273 <= planet.temperature <= 373 && planet.pressure
                > 0
            &&& planet.ocean == Ocean::Ammonia ==> 196 <= planet.temperature <= 240
                && planet.pressure > 0
        }),
{
}

} // verus!
