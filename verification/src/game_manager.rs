//! What every level of the game has in common: a name, a summary of what it
//! holds, and a description of each unit in it. And a game that holds its
//! level in place, and tells where the player cannot go on.

use crate::galaxy_generator::Galaxy;
use crate::planet_generator::{planet_of, Ocean, Planet};
use crate::planetary_environment_generator::{environment_of, PlanetaryEnvironment};
use crate::planetary_system_generator::{system_of, PlanetarySystem};
use crate::star_generator::Star;
use crate::text::invalid_coordinates;
use vstd::prelude::*;

verus! {

/// The names of the three levels, from the outermost inward.
#[derive(Clone, Copy, Debug, PartialEq, Eq, Structural)]
pub enum SceneName {
    Galaxy,
    PlanetarySystem,
    PlanetaryEnvironment,
}

/// A level of the game.
pub trait Scene {
    /// The level of the scene.
    spec fn scene_name(&self) -> SceneName;

    /// How many units the scene holds.
    spec fn unit_count(&self) -> nat;

    /// The summary of the scene.
    spec fn system_info(&self) -> Seq<char>;

    /// The description of the unit at `index`.
    spec fn unit_info(&self, index: int) -> Seq<char>;

    fn get_scene_name(&self) -> (name: SceneName)
        ensures
            name == self.scene_name(),
    ;

    fn get_system_info(&self) -> (info: String)
        ensures
            info@ == self.system_info(),
    ;

    /// Describes the unit at `index`, or says that the scene holds none
    /// there.
    fn get_unit_info(&self, index: usize) -> (info: String)
        ensures
            info@ == if index < self.unit_count() {
                self.unit_info(index as int)
            } else {
                invalid_coordinates()
            },
    ;
}

/// Which of `count` places to take for `index`: the place itself where there
/// is one, and the first place otherwise.
pub open spec fn clamped(index: usize, count: nat) -> int {
    if index < count {
        index as int
    } else {
        0
    }
}

/// The unit that a level gives for `index`: the one at `index`, the first
/// one where the level has none at `index`, and `fallback` where the level
/// is empty.
pub open spec fn chosen<T>(units: Seq<T>, index: usize, fallback: T) -> T {
    if units.len() == 0 {
        fallback
    } else {
        units[clamped(index, units.len())]
    }
}

/// Whether an environment can be generated for `planet`: a habitable planet
/// has an ocean.
pub open spec fn can_be_explored(planet: Planet) -> bool {
    planet.habitable ==> planet.ocean != Ocean::Dry
}

/// One of the three levels.
pub enum Level {
    Galaxy(Galaxy),
    PlanetarySystem(PlanetarySystem),
    PlanetaryEnvironment(PlanetaryEnvironment),
}

impl Scene for Level {
    open spec fn scene_name(&self) -> SceneName {
        match self {
            Level::Galaxy(galaxy) => galaxy.scene_name(),
            Level::PlanetarySystem(system) => system.scene_name(),
            Level::PlanetaryEnvironment(environment) => environment.scene_name(),
        }
    }

    open spec fn unit_count(&self) -> nat {
        match self {
            Level::Galaxy(galaxy) => galaxy.unit_count(),
            Level::PlanetarySystem(system) => system.unit_count(),
            Level::PlanetaryEnvironment(environment) => environment.unit_count(),
        }
    }

    open spec fn system_info(&self) -> Seq<char> {
        match self {
            Level::Galaxy(galaxy) => galaxy.system_info(),
            Level::PlanetarySystem(system) => system.system_info(),
            Level::PlanetaryEnvironment(environment) => environment.system_info(),
        }
    }

    open spec fn unit_info(&self, index: int) -> Seq<char> {
        match self {
            Level::Galaxy(galaxy) => galaxy.unit_info(index),
            Level::PlanetarySystem(system) => system.unit_info(index),
            Level::PlanetaryEnvironment(environment) => environment.unit_info(index),
        }
    }

    fn get_scene_name(&self) -> (name: SceneName) {
        match self {
            Level::Galaxy(galaxy) => galaxy.get_scene_name(),
            Level::PlanetarySystem(system) => system.get_scene_name(),
            Level::PlanetaryEnvironment(environment) => environment.get_scene_name(),
        }
    }

    fn get_system_info(&self) -> (info: String) {
        match self {
            Level::Galaxy(galaxy) => galaxy.get_system_info(),
            Level::PlanetarySystem(system) => system.get_system_info(),
            Level::PlanetaryEnvironment(environment) => environment.get_system_info(),
        }
    }

    fn get_unit_info(&self, index: usize) -> (info: String) {
        match self {
            Level::Galaxy(galaxy) => galaxy.get_unit_info(index),
            Level::PlanetarySystem(system) => system.get_unit_info(index),
            Level::PlanetaryEnvironment(environment) => environment.get_unit_info(index),
        }
    }
}

/// A game that holds its level in place, with the size of its galaxies and
/// the star and the planet that were chosen last.
pub struct Game {
    pub scene: Level,
    pub galaxy_size: u64,
    pub star_seed: Star,
    pub planet_seed: Planet,
}

impl Game {
    /// Whether the game can go on from here: the stars and planets of the
    /// level are such as the generators make, and an environment can be
    /// generated for the planet in memory.
    pub open spec fn wf(&self) -> bool {
        &&& match self.scene {
            Level::Galaxy(galaxy) => galaxy.wf(),
            Level::PlanetarySystem(system) => system.wf(),
            Level::PlanetaryEnvironment(_) => true,
        }
        &&& self.star_seed.wf()
        &&& can_be_explored(self.planet_seed)
    }

    /// A game that starts in a galaxy of `number_of_stars` stars, with a
    /// star and its first planet in memory.
    pub fn new(number_of_stars: u64) -> (game: Game)
        ensures
            game.wf(),
            game.galaxy_size == number_of_stars,
            game.scene matches Level::Galaxy(galaxy) && galaxy@.len() == number_of_stars,
            game.planet_seed == planet_of(game.star_seed.age, game.star_seed.temperature, 1),
    {
        let star = Star::new();
        let planet = Planet::new(&star, 1);
        Game {
            scene: Level::Galaxy(Galaxy::new(number_of_stars)),
            galaxy_size: number_of_stars,
            star_seed: star,
            planet_seed: planet,
        }
    }

    /// Goes one level inward at the unit `index`, and says whether it did:
    /// there is no way inward from an environment. From the galaxy the way
    /// leads to the system of the star at `index`, from a system to the
    /// environment of the planet at `index`; the unit is taken out of its
    /// level and kept in memory.
    pub fn step_in(&mut self, index: usize) -> (moved: bool)
        requires
            old(self).wf(),
        ensures
            final(self).wf(),
            final(self).galaxy_size == old(self).galaxy_size,
            moved == !(old(self).scene is PlanetaryEnvironment),
            match old(self).scene {
                Level::Galaxy(galaxy) => {
                    &&& final(self).star_seed == chosen(galaxy@, index, old(self).star_seed)
                    &&& final(self).planet_seed == old(self).planet_seed
                    &&& final(self).scene matches Level::PlanetarySystem(system)
                    &&& system@ == system_of(
                        final(self).star_seed.age,
                        final(self).star_seed.temperature,
                    )
                },
                Level::PlanetarySystem(system) => {
                    &&& final(self).star_seed == old(self).star_seed
                    &&& final(self).planet_seed == chosen(system@, index, old(self).planet_seed)
                    &&& final(self).scene matches Level::PlanetaryEnvironment(environment)
                    &&& environment@ == environment_of(final(self).planet_seed)
                },
                Level::PlanetaryEnvironment(_) => *final(self) == *old(self),
            },
    {
        match &mut self.scene {
            Level::Galaxy(galaxy) => {
                match galaxy.get_star(index) {
                    Some(star) => {
                        self.star_seed = star;
                    },
                    None => {},
                }
                self.scene = Level::PlanetarySystem(PlanetarySystem::new(&self.star_seed));
                true
            },
            Level::PlanetarySystem(system) => {
                match system.get_planet(index) {
                    Some(planet) => {
                        self.planet_seed = planet;
                    },
                    None => {},
                }
                self.scene = Level::PlanetaryEnvironment(
                    PlanetaryEnvironment::new(&self.planet_seed),
                );
                true
            },
            Level::PlanetaryEnvironment(_) => false,
        }
    }

    /// Goes one level outward, and says whether it did: there is no way out
    /// of the galaxy. From a system the way leads to a new galaxy of the
    /// size of the first, from an environment to the system of the star in
    /// memory.
    pub fn step_out(&mut self) -> (moved: bool)
        requires
            old(self).wf(),
        ensures
            final(self).wf(),
            final(self).galaxy_size == old(self).galaxy_size,
            final(self).star_seed == old(self).star_seed,
            final(self).planet_seed == old(self).planet_seed,
            moved == !(old(self).scene is Galaxy),
            match old(self).scene {
                Level::Galaxy(_) => *final(self) == *old(self),
                Level::PlanetarySystem(_) => final(self).scene matches Level::Galaxy(galaxy)
                    && galaxy@.len() == old(self).galaxy_size,
                Level::PlanetaryEnvironment(_) => final(self).scene matches Level::PlanetarySystem(
                    system,
                ) && system@ == system_of(old(self).star_seed.age, old(self).star_seed.temperature),
            },
    {
        match &self.scene {
            Level::Galaxy(_) => false,
            Level::PlanetarySystem(_) => {
                self.scene = Level::Galaxy(Galaxy::new(self.galaxy_size));
                true
            },
            Level::PlanetaryEnvironment(_) => {
                self.scene = Level::PlanetarySystem(PlanetarySystem::new(&self.star_seed));
                true
            },
        }
    }
}

} // verus!
