//! Planetary systems: the planets of one star, the nearest first.

use crate::game_manager::{clamped, Scene, SceneName};
use crate::planet_generator::{planet_of, Planet};
use crate::rng::{draw_u8, drawn, seeded, Draw};
use crate::star_generator::Star;
use crate::text::{decimal, listing, push_decimal, push_entry};
use vstd::prelude::*;
use vstd::string::StringExecFns;

verus! {

pub const PLANET_NUMBER_MINIMUM: u8 = 3;

pub const PLANET_NUMBER_MAXIMUM: u8 = 12;

/// The planets of a star, the nearest first.
pub struct PlanetarySystem {
    planets: Vec<Planet>,
}

impl View for PlanetarySystem {
    type V = Seq<Planet>;

    closed spec fn view(&self) -> Seq<Planet> {
        self.planets@
    }
}

/// How many planets a star of age `star_age` has: between 3 and 12, drawn by
/// a generator that is seeded with the age.
pub open spec fn planet_count(star_age: u16) -> int {
    drawn(
        star_age as u64,
        Seq::<Draw>::empty(),
        8,
        PLANET_NUMBER_MINIMUM as int,
        PLANET_NUMBER_MAXIMUM as int,
    )
}

/// The first `count` planets of a star of the given age and temperature, at
/// the distances 1 to `count`.
pub open spec fn planets_of(star_age: u16, star_temperature: u16, count: nat) -> Seq<Planet> {
    Seq::new(count, |i: int| planet_of(star_age, star_temperature, (i + 1) as u8))
}

/// The planets of a star of the given age and temperature.
pub open spec fn system_of(star_age: u16, star_temperature: u16) -> Seq<Planet> {
    planets_of(star_age, star_temperature, planet_count(star_age) as nat)
}

/// The names of the classes of `planets`, in their order.
pub open spec fn planet_labels(planets: Seq<Planet>) -> Seq<Seq<char>> {
    Seq::new(planets.len(), |i: int| planets[i].class.label_text())
}

impl PlanetarySystem {
    /// Generates the planets of `star`. Two calls for the same age and
    /// temperature return the same system.
    pub fn new(star: &Star) -> (system: PlanetarySystem)
        ensures
            system@ == system_of(star.age, star.temperature),
            PLANET_NUMBER_MINIMUM <= system@.len() <= PLANET_NUMBER_MAXIMUM,
            system.wf(),
    {
        let mut rng = seeded(star.age as u64);
        let count = draw_u8(&mut rng, PLANET_NUMBER_MINIMUM, PLANET_NUMBER_MAXIMUM);
        PlanetarySystem { planets: Self::generate_planets(star, count) }
    }

    /// Generates the planets of `star` at the distances 1 to `count`.
    pub fn generate_planets(star: &Star, count: u8) -> (planets: Vec<Planet>)
        ensures
            planets@ == planets_of(star.age, star.temperature, count as nat),
            forall|k: int| 0 <= k < planets@.len() ==> (#[trigger] planets@[k]).wf(),
    {
        let mut planets: Vec<Planet> = Vec::new();
        let mut i: u8 = 0;
        while i < count
            invariant
                i <= count,
                planets@ == planets_of(star.age, star.temperature, i as nat),
                forall|k: int| 0 <= k < planets@.len() ==> (#[trigger] planets@[k]).wf(),
            decreases count - i,
        {
            i += 1;
            planets.push(Planet::new(star, i));
            assert(planets@ =~= planets_of(star.age, star.temperature, i as nat));
        }
        planets
    }

    /// Whether every planet of the system is one that the generator makes.
    pub open spec fn wf(&self) -> bool {
        forall|k: int| 0 <= k < self@.len() ==> (#[trigger] self@[k]).wf()
    }

    pub fn get_planets(&self) -> (planets: &Vec<Planet>)
        ensures
            planets@ == self@,
    {
        &self.planets
    }

    /// Takes the planet at `index` out of the system, or the first planet
    /// where there is none at `index`. An empty system gives no planet.
    pub fn get_planet(&mut self, index: usize) -> (planet: Option<Planet>)
        ensures
            old(self)@.len() == 0 ==> planet is None && final(self)@ == old(self)@,
            old(self)@.len() > 0 ==> planet == Some(old(self)@[clamped(index, old(self)@.len())])
                && final(self)@ == old(self)@.remove(clamped(index, old(self)@.len())),
    {
        if self.planets.len() == 0 {
            None
        } else if index < self.planets.len() {
            Some(self.planets.remove(index))
        } else {
            Some(self.planets.remove(0))
        }
    }
}

impl Scene for PlanetarySystem {
    open spec fn scene_name(&self) -> SceneName {
        SceneName::PlanetarySystem
    }

    open spec fn unit_count(&self) -> nat {
        self@.len()
    }

    /// The number of planets, and the class of each with its place in the
    /// system.
    open spec fn system_info(&self) -> Seq<char> {
        "There are "@ + decimal(self@.len()) + " planets: "@ + listing(
            planet_labels(self@),
            self@.len(),
        )
    }

    open spec fn unit_info(&self, index: int) -> Seq<char> {
        self@[index].info_text()
    }

    fn get_scene_name(&self) -> (name: SceneName) {
        SceneName::PlanetarySystem
    }

    fn get_system_info(&self) -> (info: String) {
        let mut info = String::from_str("There are ");
        push_decimal(&mut info, self.planets.len() as u64);
        info.append(" planets: ");
        let ghost head = info@;
        let mut i: usize = 0;
        while i < self.planets.len()
            invariant
                i <= self.planets@.len(),
                info@ == head + listing(planet_labels(self@), i as nat),
            decreases self.planets@.len() - i,
        {
            push_entry(&mut info, self.planets[i].class.label(), i);
            assert(info@ =~= head + listing(planet_labels(self@), (i + 1) as nat));
            i += 1;
        }
        info
    }

    fn get_unit_info(&self, index: usize) -> (info: String) {
        if index < self.planets.len() {
            self.planets[index].get_info()
        } else {
            String::from_str("Invalid coordinates.")
        }
    }
}

} // verus!
